//! Domain entities of the monitoring service. Identifiers are the 128-bit
//! big-endian values of UUIDs; instants are `Timestamp`s.

use vstd::prelude::*;
use vstd::string::*;
use crate::boundary::new_uuid_v4;
use crate::text::{opt_text, is_white_space, chars_of, char_is_white_space};
use crate::timestamp::{Timestamp, representable};

verus! {

/// Whether `u` is a version-4 (random) UUID of the RFC 4122 variant.
pub open spec fn is_v4(u: u128) -> bool {
    &&& (u >> 76u128) & 0xfu128 == 4
    &&& (u >> 62u128) & 0x3u128 == 2
}

#[derive(Debug, Clone, Copy, PartialEq, Eq)]
pub enum AlertType {
    DeviceOffline,
    BandwidthSaturation,
    PacketLoss,
    Intrusion,
    TopologyChange,
    HighTraffic,
}

#[derive(Debug, Clone, Copy, PartialEq, Eq)]
pub enum AlertSeverity {
    Critical,
    High,
    Medium,
    Low,
}

#[derive(Debug, Clone, Copy, PartialEq, Eq)]
pub enum AlertStatus {
    Active,
    Acknowledged,
    Resolved,
}

/// A monitoring alert.
#[derive(Debug, Clone)]
pub struct Alert {
    pub id: u128,
    pub alert_type: AlertType,
    pub severity: AlertSeverity,
    pub device_id: Option<u128>,
    pub message: String,
    pub details: Option<String>,
    pub status: AlertStatus,
    pub acknowledged_by: Option<u128>,
    pub acknowledged_at: Option<Timestamp>,
    pub created_at: Timestamp,
    pub updated_at: Timestamp,
}

/// `b` is the same alert as `a`: what an alert was raised with never changes.
pub open spec fn same_alert(a: Alert, b: Alert) -> bool {
    &&& b.id == a.id
    &&& b.alert_type == a.alert_type
    &&& b.severity == a.severity
    &&& b.device_id == a.device_id
    &&& b.message@ == a.message@
    &&& opt_text(b.details) == opt_text(a.details)
    &&& b.created_at == a.created_at
}

/// `a` is a new active alert raised with these fields.
pub open spec fn raised_with(
    a: Alert,
    alert_type: AlertType,
    severity: AlertSeverity,
    device_id: Option<u128>,
    message: String,
    details: Option<String>,
) -> bool {
    &&& is_v4(a.id)
    &&& a.alert_type == alert_type
    &&& a.severity == severity
    &&& a.device_id == device_id
    &&& a.message == message
    &&& a.details == details
    &&& a.status == AlertStatus::Active
    &&& a.acknowledged_by is None
    &&& a.acknowledged_at is None
}

/// What an alert was raised with survives any chain of changes that each
/// keep it: acknowledging, then resolving, leaves it the same alert.
pub proof fn law_same_alert_chain(a: Alert, b: Alert, c: Alert)
    requires
        same_alert(a, b),
        same_alert(b, c),
    ensures
        same_alert(a, c),
{
}

impl Alert {
    /// A new active alert with a fresh random identifier.
    pub fn new(
        alert_type: AlertType,
        severity: AlertSeverity,
        device_id: Option<u128>,
        message: String,
        details: Option<String>,
    ) -> (a: Self)
        ensures
            is_v4(a.id),
            a.alert_type == alert_type,
            a.severity == severity,
            a.device_id == device_id,
            a.message == message,
            a.details == details,
            a.status == AlertStatus::Active,
            a.acknowledged_by is None,
            a.acknowledged_at is None,
            a.created_at == a.updated_at,
    {
        let now = Timestamp::now();
        Alert {
            id: new_uuid_v4(),
            alert_type,
            severity,
            device_id,
            message,
            details,
            status: AlertStatus::Active,
            acknowledged_by: None,
            acknowledged_at: None,
            created_at: now,
            updated_at: now,
        }
    }

    /// Marks the alert as acknowledged by `user_id`, now.
    pub fn acknowledge(&mut self, user_id: u128)
        ensures
            same_alert(*old(self), *final(self)),
            final(self).status == AlertStatus::Acknowledged,
            final(self).acknowledged_by == Some(user_id),
            final(self).acknowledged_at is Some,
    {
        self.status = AlertStatus::Acknowledged;
        self.acknowledged_by = Some(user_id);
        self.acknowledged_at = Some(Timestamp::now());
        self.updated_at = Timestamp::now();
    }

    /// Marks the alert as resolved, now.
    pub fn resolve(&mut self)
        ensures
            same_alert(*old(self), *final(self)),
            final(self).status == AlertStatus::Resolved,
            final(self).acknowledged_by == old(self).acknowledged_by,
            final(self).acknowledged_at == old(self).acknowledged_at,
    {
        self.status = AlertStatus::Resolved;
        self.updated_at = Timestamp::now();
    }
}

/// A record of an action taken through the API.
#[derive(Debug, Clone)]
pub struct AuditLog {
    pub id: u128,
    pub user_id: Option<u128>,
    pub action: String,
    pub resource: String,
    pub resource_id: Option<String>,
    pub details: Option<String>,
    pub ip_address: Option<String>,
    pub user_agent: Option<String>,
    pub created_at: Timestamp,
}

impl AuditLog {
    /// A new audit record with a fresh random identifier, created now.
    pub fn new(
        user_id: Option<u128>,
        action: String,
        resource: String,
        resource_id: Option<String>,
        details: Option<String>,
    ) -> (l: Self)
        ensures
            is_v4(l.id),
            l.user_id == user_id,
            l.action == action,
            l.resource == resource,
            l.resource_id == resource_id,
            l.details == details,
            l.ip_address is None,
            l.user_agent is None,
    {
        AuditLog {
            id: new_uuid_v4(),
            user_id,
            action,
            resource,
            resource_id,
            details,
            ip_address: None,
            user_agent: None,
            created_at: Timestamp::now(),
        }
    }
}

#[derive(Debug, Clone, Copy, PartialEq, Eq)]
pub enum DeviceType {
    Switch,
    AccessPoint,
    Router,
    Firewall,
    Server,
    Ups,
    Camera,
    WirelessLink,
}

#[derive(Debug, Clone, Copy, PartialEq, Eq)]
pub enum DeviceStatus {
    Active,
    Offline,
    Maintenance,
}

/// A network device of the inventory.
#[derive(Debug, Clone)]
pub struct Device {
    pub id: u128,
    pub hostname: String,
    pub ip_address: String,
    pub mac_address: Option<String>,
    pub device_type: DeviceType,
    pub status: DeviceStatus,
    pub sede_id: u128,
    pub last_seen_at: Option<Timestamp>,
    pub created_at: Timestamp,
    pub updated_at: Timestamp,
    pub deleted_at: Option<Timestamp>,
}

/// `b` is the same device as `a` in everything but its status and instants.
pub open spec fn same_device(a: Device, b: Device) -> bool {
    &&& b.id == a.id
    &&& b.hostname@ == a.hostname@
    &&& b.ip_address@ == a.ip_address@
    &&& opt_text(b.mac_address) == opt_text(a.mac_address)
    &&& b.device_type == a.device_type
    &&& b.sede_id == a.sede_id
    &&& b.created_at == a.created_at
}

/// What identifies a device survives any chain of changes that each keep
/// it: status updates and soft deletion leave it the same device.
pub proof fn law_same_device_chain(a: Device, b: Device, c: Device)
    requires
        same_device(a, b),
        same_device(b, c),
    ensures
        same_device(a, c),
{
}

impl Device {
    /// A new device, offline and never seen, with a fresh random identifier.
    pub fn new(hostname: String, ip_address: String, device_type: DeviceType, sede_id: u128) -> (d:
        Self)
        ensures
            is_v4(d.id),
            d.hostname == hostname,
            d.ip_address == ip_address,
            d.mac_address is None,
            d.device_type == device_type,
            d.status == DeviceStatus::Offline,
            d.sede_id == sede_id,
            d.last_seen_at is None,
            d.created_at == d.updated_at,
            d.deleted_at is None,
    {
        let now = Timestamp::now();
        Device {
            id: new_uuid_v4(),
            hostname,
            ip_address,
            mac_address: None,
            device_type,
            status: DeviceStatus::Offline,
            sede_id,
            last_seen_at: None,
            created_at: now,
            updated_at: now,
            deleted_at: None,
        }
    }

    /// Soft-deletes the device: it is kept, with the instant of deletion.
    pub fn mark_deleted(&mut self)
        ensures
            same_device(*old(self), *final(self)),
            final(self).status == old(self).status,
            final(self).last_seen_at == old(self).last_seen_at,
            final(self).deleted_at is Some,
    {
        self.deleted_at = Some(Timestamp::now());
        self.updated_at = Timestamp::now();
    }

    /// Whether the device has been soft-deleted.
    pub fn is_deleted(&self) -> (r: bool)
        ensures
            r == self.deleted_at is Some,
    {
        self.deleted_at.is_some()
    }

    /// Records a new status for the device, seen now.
    pub fn update_status(&mut self, status: DeviceStatus)
        ensures
            same_device(*old(self), *final(self)),
            final(self).status == status,
            final(self).last_seen_at is Some,
            final(self).deleted_at == old(self).deleted_at,
    {
        self.status = status;
        self.last_seen_at = Some(Timestamp::now());
        self.updated_at = Timestamp::now();
    }
}

#[derive(Debug, Clone, Copy, PartialEq, Eq)]
pub enum LinkType {
    Ethernet,
    Fiber,
    Wireless,
    Serial,
}

/// A link between two devices.
#[derive(Debug, Clone)]
pub struct DeviceLink {
    pub id: u128,
    pub source_device_id: u128,
    pub target_device_id: u128,
    pub link_type: LinkType,
    pub bandwidth_mbps: Option<i32>,
    pub status: String,
    pub created_at: Timestamp,
}

impl DeviceLink {
    /// A new active link of unknown bandwidth, with a fresh random identifier.
    pub fn new(source_device_id: u128, target_device_id: u128, link_type: LinkType) -> (l: Self)
        ensures
            is_v4(l.id),
            l.source_device_id == source_device_id,
            l.target_device_id == target_device_id,
            l.link_type == link_type,
            l.bandwidth_mbps is None,
            l.status@ == "active"@,
    {
        DeviceLink {
            id: new_uuid_v4(),
            source_device_id,
            target_device_id,
            link_type,
            bandwidth_mbps: None,
            status: String::from_str("active"),
            created_at: Timestamp::now(),
        }
    }
}

#[derive(Debug, Clone, Copy, PartialEq, Eq)]
pub enum IntrusionStatus {
    Detected,
    Investigating,
    Resolved,
    FalsePositive,
}

/// A device seen on the network that is not in the inventory.
#[derive(Debug, Clone)]
pub struct IntrusionEvent {
    pub id: u128,
    pub mac_address: String,
    pub ip_address: Option<String>,
    pub device_id: Option<u128>,
    pub status: IntrusionStatus,
    pub detected_at: Timestamp,
    pub resolved_at: Option<Timestamp>,
    pub notes: Option<String>,
    pub created_at: Timestamp,
    pub updated_at: Timestamp,
}

/// `b` is the same intrusion event as `a`: what was detected never changes.
pub open spec fn same_intrusion(a: IntrusionEvent, b: IntrusionEvent) -> bool {
    &&& b.id == a.id
    &&& b.mac_address@ == a.mac_address@
    &&& opt_text(b.ip_address) == opt_text(a.ip_address)
    &&& b.device_id == a.device_id
    &&& b.detected_at == a.detected_at
    &&& opt_text(b.notes) == opt_text(a.notes)
    &&& b.created_at == a.created_at
}

impl IntrusionEvent {
    /// A new event, detected now, with a fresh random identifier.
    pub fn new(mac_address: String, ip_address: Option<String>, device_id: Option<u128>) -> (e:
        Self)
        ensures
            is_v4(e.id),
            e.mac_address == mac_address,
            e.ip_address == ip_address,
            e.device_id == device_id,
            e.status == IntrusionStatus::Detected,
            e.detected_at == e.created_at,
            e.created_at == e.updated_at,
            e.resolved_at is None,
            e.notes is None,
    {
        let now = Timestamp::now();
        IntrusionEvent {
            id: new_uuid_v4(),
            mac_address,
            ip_address,
            device_id,
            status: IntrusionStatus::Detected,
            detected_at: now,
            resolved_at: None,
            notes: None,
            created_at: now,
            updated_at: now,
        }
    }

    /// Puts the event under investigation.
    pub fn investigate(&mut self)
        ensures
            same_intrusion(*old(self), *final(self)),
            final(self).status == IntrusionStatus::Investigating,
            final(self).resolved_at == old(self).resolved_at,
    {
        self.status = IntrusionStatus::Investigating;
        self.updated_at = Timestamp::now();
    }

    /// Closes the event as a real intrusion, resolved now.
    pub fn resolve(&mut self)
        ensures
            same_intrusion(*old(self), *final(self)),
            final(self).status == IntrusionStatus::Resolved,
            final(self).resolved_at is Some,
    {
        self.status = IntrusionStatus::Resolved;
        self.resolved_at = Some(Timestamp::now());
        self.updated_at = Timestamp::now();
    }

    /// Closes the event as a false positive, now.
    pub fn mark_false_positive(&mut self)
        ensures
            same_intrusion(*old(self), *final(self)),
            final(self).status == IntrusionStatus::FalsePositive,
            final(self).resolved_at is Some,
    {
        self.status = IntrusionStatus::FalsePositive;
        self.resolved_at = Some(Timestamp::now());
        self.updated_at = Timestamp::now();
    }
}

/// A role of the access-control scheme.
#[derive(Debug, Clone)]
pub struct Role {
    pub id: u128,
    pub name: String,
    pub description: Option<String>,
}

impl Role {
    /// A new role with a fresh random identifier.
    pub fn new(name: String, description: Option<String>) -> (r: Self)
        ensures
            is_v4(r.id),
            r.name == name,
            r.description == description,
    {
        Role { id: new_uuid_v4(), name, description }
    }
}

/// A regional site (sede) of the administration.
#[derive(Debug, Clone)]
pub struct Sede {
    pub id: u128,
    pub nombre: String,
    pub ubicacion: String,
    pub secretaria: String,
    pub created_at: Timestamp,
    pub updated_at: Timestamp,
    pub deleted_at: Option<Timestamp>,
}

impl Sede {
    /// A new site with a fresh random identifier, created now.
    pub fn new(nombre: String, ubicacion: String, secretaria: String) -> (s: Self)
        ensures
            is_v4(s.id),
            s.nombre == nombre,
            s.ubicacion == ubicacion,
            s.secretaria == secretaria,
            s.created_at == s.updated_at,
            s.deleted_at is None,
    {
        let now = Timestamp::now();
        Sede {
            id: new_uuid_v4(),
            nombre,
            ubicacion,
            secretaria,
            created_at: now,
            updated_at: now,
            deleted_at: None,
        }
    }

    /// Soft-deletes the site: it is kept, with the instant of deletion.
    pub fn mark_deleted(&mut self)
        ensures
            final(self).id == old(self).id,
            final(self).nombre == old(self).nombre,
            final(self).ubicacion == old(self).ubicacion,
            final(self).secretaria == old(self).secretaria,
            final(self).created_at == old(self).created_at,
            final(self).deleted_at is Some,
    {
        self.deleted_at = Some(Timestamp::now());
        self.updated_at = Timestamp::now();
    }

    /// Whether the site has been soft-deleted.
    pub fn is_deleted(&self) -> (r: bool)
        ensures
            r == self.deleted_at is Some,
    {
        self.deleted_at.is_some()
    }
}

/// A login session.
#[derive(Debug, Clone)]
pub struct Session {
    pub id: u128,
    pub user_id: u128,
    pub token_hash: String,
    pub ip_address: Option<String>,
    pub user_agent: Option<String>,
    pub expires_at: Timestamp,
    pub created_at: Timestamp,
}

impl Session {
    /// A new session of `user_id`, created now.
    pub fn new(user_id: u128, token_hash: String, expires_at: Timestamp) -> (s: Self)
        ensures
            is_v4(s.id),
            s.user_id == user_id,
            s.token_hash == token_hash,
            s.ip_address is None,
            s.user_agent is None,
            s.expires_at == expires_at,
    {
        let now = Timestamp::now();
        Session {
            id: new_uuid_v4(),
            user_id,
            token_hash,
            ip_address: None,
            user_agent: None,
            expires_at,
            created_at: now,
        }
    }

    /// Whether the session has expired at instant `now`.
    pub fn is_expired_at(&self, now: Timestamp) -> (r: bool)
        ensures
            r == (now.nanos() > self.expires_at.nanos()),
    {
        now.is_after(&self.expires_at)
    }

    /// Whether the session has expired, by the system clock: the rule of
    /// `is_expired_at` applied at the instant the clock reads, which is some
    /// instant in the represented range.
    pub fn is_expired(&self) -> (r: bool)
        ensures
            exists|now: Timestamp|
                representable(#[trigger] now.nanos()) && r == (now.nanos() > self.expires_at.nanos()),
    {
        let now = Timestamp::now();
        let r = self.is_expired_at(now);
        assert(representable(now.nanos()) && r == (now.nanos() > self.expires_at.nanos()));
        r
    }
}

#[derive(Debug, Clone, Copy, PartialEq, Eq)]
pub enum TokenPurpose {
    EmailVerification,
    PasswordReset,
}

/// A single-use token for e-mail verification or password reset.
#[derive(Debug, Clone)]
pub struct Token {
    pub id: u128,
    pub user_id: u128,
    pub token_hash: String,
    pub purpose: TokenPurpose,
    pub expires_at: Timestamp,
    pub created_at: Timestamp,
}

impl Token {
    /// A new token of `user_id`, created now.
    pub fn new(user_id: u128, token_hash: String, purpose: TokenPurpose, expires_at: Timestamp) -> (t:
        Self)
        ensures
            is_v4(t.id),
            t.user_id == user_id,
            t.token_hash == token_hash,
            t.purpose == purpose,
            t.expires_at == expires_at,
    {
        Token {
            id: new_uuid_v4(),
            user_id,
            token_hash,
            purpose,
            expires_at,
            created_at: Timestamp::now(),
        }
    }

    /// Whether the token has expired at instant `now`.
    pub fn is_expired_at(&self, now: Timestamp) -> (r: bool)
        ensures
            r == (now.nanos() > self.expires_at.nanos()),
    {
        now.is_after(&self.expires_at)
    }

    /// Whether the token has expired, by the system clock: the rule of
    /// `is_expired_at` applied at the instant the clock reads, which is some
    /// instant in the represented range.
    pub fn is_expired(&self) -> (r: bool)
        ensures
            exists|now: Timestamp|
                representable(#[trigger] now.nanos()) && r == (now.nanos() > self.expires_at.nanos()),
    {
        let now = Timestamp::now();
        let r = self.is_expired_at(now);
        assert(representable(now.nanos()) && r == (now.nanos() > self.expires_at.nanos()));
        r
    }
}

/// A user account.
#[derive(Debug, Clone)]
pub struct User {
    pub id: u128,
    pub email: String,
    pub password_hash: String,
    pub name: String,
    pub is_active: bool,
    pub created_at: Timestamp,
    pub updated_at: Timestamp,
    pub deleted_at: Option<Timestamp>,
}

/// An e-mail address is accepted when it holds an `@` and a `.`.
pub open spec fn valid_email(email: Seq<char>) -> bool {
    email.contains('@') && email.contains('.')
}

/// A name is accepted when it holds a character that is not white space.
pub open spec fn valid_name(name: Seq<char>) -> bool {
    exists|i: int| 0 <= i < name.len() && !is_white_space(#[trigger] name[i])
}

/// An address is accepted exactly when it holds both an `@` and a `.`,
/// wherever they stand; a name exactly when not all of it is white space
/// (so the empty name is refused).
pub proof fn law_user_checks(email: Seq<char>, name: Seq<char>)
    ensures
        valid_email(email) <==> (exists|i: int| 0 <= i < email.len() && email[i] == '@') && (exists|
            j: int,
        |
            0 <= j < email.len() && email[j] == '.'),
        valid_name(name) <==> !(forall|i: int| 0 <= i < name.len() ==> is_white_space(name[i])),
        !valid_name(Seq::<char>::empty()),
{
}

fn contains_char(s: &str, c: char) -> (r: bool)
    ensures
        r == s@.contains(c),
{
    let v = chars_of(s);
    let n = v.len();
    let mut i: usize = 0;
    while i < n
        invariant
            n == v@.len(),
            v@ == s@,
            i <= n,
            forall|j: int| 0 <= j < i ==> v@[j] != c,
        decreases n - i,
    {
        if v[i] == c {
            assert(s@[i as int] == c);
            return true;
        }
        i = i + 1;
    }
    false
}

impl User {
    /// A new active user with a fresh random identifier, created now.
    pub fn new(email: String, password_hash: String, name: String) -> (u: Self)
        ensures
            is_v4(u.id),
            u.email == email,
            u.password_hash == password_hash,
            u.name == name,
            u.is_active,
            u.created_at == u.updated_at,
            u.deleted_at is None,
    {
        let now = Timestamp::now();
        User {
            id: new_uuid_v4(),
            email,
            password_hash,
            name,
            is_active: true,
            created_at: now,
            updated_at: now,
            deleted_at: None,
        }
    }

    /// Soft-deletes the user: the account is kept, with the instant of deletion.
    pub fn mark_deleted(&mut self)
        ensures
            final(self).id == old(self).id,
            final(self).email == old(self).email,
            final(self).password_hash == old(self).password_hash,
            final(self).name == old(self).name,
            final(self).is_active == old(self).is_active,
            final(self).created_at == old(self).created_at,
            final(self).deleted_at is Some,
    {
        self.deleted_at = Some(Timestamp::now());
        self.updated_at = Timestamp::now();
    }

    /// Whether the user has been soft-deleted.
    pub fn is_deleted(&self) -> (r: bool)
        ensures
            r == self.deleted_at is Some,
    {
        self.deleted_at.is_some()
    }

    /// Whether `email` looks like an e-mail address.
    pub fn validate_email(email: &str) -> (r: bool)
        ensures
            r == valid_email(email@),
    {
        contains_char(email, '@') && contains_char(email, '.')
    }

    /// Whether `name` is not blank.
    pub fn validate_name(name: &str) -> (r: bool)
        ensures
            r == valid_name(name@),
    {
        let v = chars_of(name);
        let n = v.len();
        let mut i: usize = 0;
        while i < n
            invariant
                n == v@.len(),
                v@ == name@,
                i <= n,
                forall|j: int| 0 <= j < i ==> is_white_space(#[trigger] v@[j]),
            decreases n - i,
        {
            if !char_is_white_space(v[i]) {
                assert(!is_white_space(name@[i as int]));
                return true;
            }
            i = i + 1;
        }
        false
    }
}

} // verus!
