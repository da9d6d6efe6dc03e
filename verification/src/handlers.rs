//! The API's endpoints: how a request is read and checked, what the store is
//! asked, and what is answered. Each endpoint works against a store given by
//! the caller, through a `ports` store value that records the calls made, so
//! that each endpoint states exactly which reads and writes it performs;
//! reading the HTTP request and writing the JSON answer are the caller's.

use vstd::prelude::*;
use vstd::string::*;
use crate::boundary::{parse_uuid, uuid_hyphenated, uuid_parsed};
use crate::boundary::uuid_to_text;
use crate::dto::{
    AlertListResponse, AlertResponse, DeviceResponse, SedeResponse, is_bad_request, is_not_found,
    lists_alerts, lists_devices, lists_sedes, shows_alert, shows_device, shows_sede,
    AcknowledgeAlertRequest, ApiErrorResponse, CreateAlertRequest, CreateDeviceRequest,
    CreateSedeRequest, ListAlertsQuery, UpdateDeviceRequest, UpdateSedeRequest,
    alert_status_from_text, device_status_from_text, device_type_from_text, parse_alert_status,
    parse_alert_type, parse_device_status, parse_device_type, parse_severity, device_status_name,
    device_type_name, law_device_status_names, law_device_type_names, alert_type_name,
    severity_name, alert_status_name, law_alert_type_names, law_severity_names,
    law_alert_status_names,
};
use crate::entities::{
    Alert, AlertSeverity, AlertStatus, AlertType, Device, DeviceStatus, DeviceType, Sede, is_v4,
    raised_with,
};
use crate::errors::DomainError;
use crate::ports::{
    AlertCall, AlertRepository, AlertStore, DeviceCall, DeviceRepository, DeviceStore, SedeCall,
    SedeRepository, SedeStore,
};
use crate::text::opt_text;

verus! {

/// Results listed when a device listing gives no limit.
pub const DEFAULT_ALERT_LIMIT: usize = 100;

/// Which alerts a listing asks for.
#[derive(Debug, Clone, Copy, PartialEq, Eq)]
pub enum AlertQuery {
    ByStatus(AlertStatus),
    ByDevice { device_id: u128, limit: usize },
    Active,
}

/// `e` answers the store's failure `d`: `Database error: <d>`, with status 500.
pub open spec fn is_store_failure(e: ApiErrorResponse, d: DomainError) -> bool {
    &&& e.error@ == "Database error: "@ + d.text()
    &&& e.details is None
    &&& e.status == 500
}

/// The three kinds of failure an endpoint answers are told apart by their
/// status: a refused request is 400 with its reason, an unknown record 404
/// with `<resource> not found`, and a failure of the store 500 with
/// `Database error: <error>`; none carries details.
pub proof fn law_error_answers(e: ApiErrorResponse, m: Seq<char>, resource: Seq<char>, d: DomainError)
    ensures
        is_bad_request(e, m) ==> e.status == 400 && e.error@ == m && !is_not_found(e, resource)
            && !is_store_failure(e, d),
        is_not_found(e, resource) ==> e.status == 404 && e.error@ == resource + " not found"@
            && !is_store_failure(e, d),
        is_store_failure(e, d) ==> e.status == 500 && e.error@ == "Database error: "@ + d.text(),
        (is_bad_request(e, m) || is_not_found(e, resource) || is_store_failure(e, d))
            ==> e.details is None,
{
}

/// The error answered when the store fails: `Database error: <error>`.
pub fn database_error(e: &DomainError) -> (r: ApiErrorResponse)
    ensures
        is_store_failure(r, *e),
{
    let m = e.message();
    let mut error = String::from_str("Database error: ");
    error.append(m.as_str());
    ApiErrorResponse::new(error)
}

/// Reads a path identifier; a malformed one is answered `Invalid UUID format`.
pub fn parse_path_id(id: &str) -> (r: Result<u128, ApiErrorResponse>)
    ensures
        match uuid_parsed(id@) {
            Some(u) => r == Ok::<u128, ApiErrorResponse>(u),
            None => r matches Err(e) && is_bad_request(e, "Invalid UUID format"@),
        },
{
    match parse_uuid(id) {
        Some(u) => Ok(u),
        None => Err(ApiErrorResponse::bad_request("Invalid UUID format")),
    }
}

/// The query an alert listing asks for: by status when a status is given
/// (an unknown one is refused), else by device when a device is given (a
/// malformed identifier is refused; at most `limit`, by default 100), else
/// the active alerts. A refusal is given by its error text.
pub open spec fn listing_plan(query: ListAlertsQuery) -> Result<AlertQuery, Seq<char>> {
    match query.status {
        Some(s) => match parse_alert_status(s@) {
            Some(st) => Ok(AlertQuery::ByStatus(st)),
            None => Err("Invalid status"@),
        },
        None => match query.device_id {
            Some(d) => match uuid_parsed(d@) {
                Some(u) => Ok(
                    AlertQuery::ByDevice {
                        device_id: u,
                        limit: match query.limit {
                            Some(l) => l,
                            None => DEFAULT_ALERT_LIMIT,
                        },
                    },
                ),
                None => Err("Invalid device_id format"@),
            },
            None => Ok(AlertQuery::Active),
        },
    }
}

/// A listing asks the store by status when the query gives one (refusing a
/// name that is no status), else by device (refusing an identifier that is
/// no UUID) with the query's limit or 100 when it gives none, and otherwise
/// for the active alerts. A device or limit given together with a status is
/// ignored.
pub proof fn law_listing_plan(query: ListAlertsQuery)
    ensures
        query.status matches Some(s) ==> (match parse_alert_status(s@) {
            Some(st) => listing_plan(query) == Ok::<AlertQuery, Seq<char>>(AlertQuery::ByStatus(st))
                && alert_status_name(st) == s@,
            None => listing_plan(query) == Err::<AlertQuery, Seq<char>>("Invalid status"@),
        }),
        query.status is None ==> (query.device_id matches Some(d) ==> match uuid_parsed(d@) {
            Some(u) => listing_plan(query) == Ok::<AlertQuery, Seq<char>>(
                AlertQuery::ByDevice {
                    device_id: u,
                    limit: match query.limit {
                        Some(l) => l,
                        None => 100,
                    },
                },
            ),
            None => listing_plan(query) == Err::<AlertQuery, Seq<char>>(
                "Invalid device_id format"@,
            ),
        }),
        (query.status is None && query.device_id is None) ==> listing_plan(query) == Ok::<
            AlertQuery,
            Seq<char>,
        >(AlertQuery::Active),
{
    if let Some(s) = query.status {
        law_alert_status_names(AlertStatus::Active, s@);
    }
}

/// The query an alert listing asks for, or the error that refuses it.
pub fn plan_alert_listing(query: &ListAlertsQuery) -> (r: Result<AlertQuery, ApiErrorResponse>)
    ensures
        match listing_plan(*query) {
            Ok(q) => r == Ok::<AlertQuery, ApiErrorResponse>(q),
            Err(m) => r matches Err(e) && is_bad_request(e, m),
        },
{
    if let Some(status_text) = &query.status {
        match alert_status_from_text(status_text.as_str()) {
            Some(st) => Ok(AlertQuery::ByStatus(st)),
            None => Err(ApiErrorResponse::bad_request("Invalid status")),
        }
    } else if let Some(device_text) = &query.device_id {
        match parse_uuid(device_text.as_str()) {
            Some(u) => {
                let limit = match query.limit {
                    Some(l) => l,
                    None => DEFAULT_ALERT_LIMIT,
                };
                Ok(AlertQuery::ByDevice { device_id: u, limit })
            },
            None => Err(ApiErrorResponse::bad_request("Invalid device_id format")),
        }
    } else {
        Ok(AlertQuery::Active)
    }
}

/// `a` is the first alert of `v` with identifier `id`.
pub open spec fn first_with_id(v: Seq<Alert>, id: u128, a: Alert) -> bool {
    exists|i: int|
        0 <= i < v.len() && v[i] == a && a.id == id && forall|j: int|
            0 <= j < i ==> (#[trigger] v[j]).id != id
}

/// Some alert of `v` has identifier `id`.
pub open spec fn holds_id(v: Seq<Alert>, id: u128) -> bool {
    exists|i: int| 0 <= i < v.len() && (#[trigger] v[i]).id == id
}

/// The first alert of `alerts` with identifier `id`; none is answered
/// `Alert not found`.
#[verifier::loop_isolation(false)]
pub fn find_alert_by_id(alerts: Vec<Alert>, id: u128) -> (r: Result<Alert, ApiErrorResponse>)
    ensures
        holds_id(alerts@, id) <==> r is Ok,
        match r {
            Ok(a) => first_with_id(alerts@, id, a),
            Err(e) => is_not_found(e, "Alert"@),
        },
{
    let mut alerts = alerts;
    let ghost given = alerts@;
    let n = alerts.len();
    let mut i: usize = 0;
    while i < n
        invariant
            n == alerts@.len(),
            alerts@ == given,
            i <= n,
            forall|j: int| 0 <= j < i ==> (#[trigger] alerts@[j]).id != id,
        decreases n - i,
    {
        if alerts[i].id == id {
            let a = alerts.remove(i);
            assert(given[i as int] == a && a.id == id);
            assert(exists|k: int|
                0 <= k < given.len() && given[k] == a && a.id == id && forall|j: int|
                    0 <= j < k ==> (#[trigger] given[j]).id != id);
            assert(first_with_id(given, id, a));
            assert(holds_id(given, id));
            return Ok(a);
        }
        i = i + 1;
    }
    assert(!holds_id(given, id));
    Err(ApiErrorResponse::not_found("Alert"))
}

/// What a creation request names: its alert type, severity and device, or
/// why it is refused (an unknown type, an unknown severity, or a malformed
/// device identifier, checked in that order).
pub open spec fn alert_request_check(payload: CreateAlertRequest) -> Result<
    (AlertType, AlertSeverity, Option<u128>),
    Seq<char>,
> {
    match parse_alert_type(payload.alert_type@) {
        None => Err("Invalid alert_type"@),
        Some(t) => match parse_severity(payload.severity@) {
            None => Err("Invalid severity"@),
            Some(s) => match payload.device_id {
                Some(d) => match uuid_parsed(d@) {
                    Some(u) => Ok((t, s, Some(u))),
                    None => Err("Invalid device_id format"@),
                },
                None => Ok((t, s, None)),
            },
        },
    }
}

/// A creation request is refused for its first unreadable field, checked
/// in the order type, severity, device: a type that is no alert type is
/// `Invalid alert_type`, then a severity that is no severity is `Invalid
/// severity`, then a device identifier that is no UUID is `Invalid
/// device_id format`; a request with all three readable is accepted.
pub proof fn law_alert_request_check(payload: CreateAlertRequest)
    ensures
        parse_alert_type(payload.alert_type@) is None ==> alert_request_check(payload) == Err::<
            (AlertType, AlertSeverity, Option<u128>),
            Seq<char>,
        >("Invalid alert_type"@),
        parse_alert_type(payload.alert_type@) is Some && parse_severity(payload.severity@) is None
            ==> alert_request_check(payload) == Err::<
            (AlertType, AlertSeverity, Option<u128>),
            Seq<char>,
        >("Invalid severity"@),
        parse_alert_type(payload.alert_type@) is Some && parse_severity(payload.severity@) is Some
            ==> (alert_request_check(payload) is Err <==> (payload.device_id matches Some(d)
            && uuid_parsed(d@) is None)),
        alert_request_check(payload) is Err ==> alert_request_check(payload)->Err_0 == "Invalid alert_type"@
            || alert_request_check(payload)->Err_0 == "Invalid severity"@
            || alert_request_check(payload)->Err_0 == "Invalid device_id format"@,
{
}

/// A registration request is refused for a type that is no device type
/// (`Invalid device_type`), and otherwise for a site identifier that is no
/// UUID (`Invalid sede_id format`); it is accepted when both are readable.
pub proof fn law_device_request_check(payload: CreateDeviceRequest)
    ensures
        parse_device_type(payload.device_type@) is None ==> device_request_check(payload) == Err::<
            (DeviceType, u128),
            Seq<char>,
        >("Invalid device_type"@),
        parse_device_type(payload.device_type@) is Some && uuid_parsed(payload.sede_id@) is None
            ==> device_request_check(payload) == Err::<(DeviceType, u128), Seq<char>>(
            "Invalid sede_id format"@,
        ),
        (parse_device_type(payload.device_type@) is Some && uuid_parsed(payload.sede_id@) is Some)
            ==> device_request_check(payload) is Ok,
{
}

/// An alert raised from an accepted request has the type and severity the
/// request names, the device whose identifier it gives (if any), its
/// message and details, and starts active and unacknowledged.
pub proof fn law_alert_creation(a: Alert, payload: CreateAlertRequest)
    requires
        alert_request_check(payload) matches Ok((t, sv, dv)) && raised_with(
            a,
            t,
            sv,
            dv,
            payload.message,
            payload.details,
        ),
    ensures
        alert_type_name(a.alert_type) == payload.alert_type@,
        severity_name(a.severity) == payload.severity@,
        match payload.device_id {
            Some(d) => uuid_parsed(d@) == Some(a.device_id->0) && a.device_id is Some,
            None => a.device_id is None,
        },
        a.message == payload.message,
        a.details == payload.details,
        a.status == AlertStatus::Active,
        alert_status_name(a.status) == "Active"@,
        a.acknowledged_by is None && a.acknowledged_at is None,
{
    law_alert_type_names(a.alert_type, payload.alert_type@);
    law_severity_names(a.severity, payload.severity@);
    reveal_strlit("Active");
}

/// The alert a creation request asks for, or why it is refused.
pub fn alert_from_request(payload: CreateAlertRequest) -> (r: Result<Alert, ApiErrorResponse>)
    ensures
        match alert_request_check(payload) {
            Err(m) => r matches Err(e) && is_bad_request(e, m),
            Ok((t, s, d)) => r matches Ok(a) && raised_with(
                a,
                t,
                s,
                d,
                payload.message,
                payload.details,
            ),
        },
{
    let alert_type = match payload.to_alert_type() {
        Some(t) => t,
        None => return Err(ApiErrorResponse::bad_request("Invalid alert_type")),
    };
    let severity = match payload.to_severity() {
        Some(s) => s,
        None => return Err(ApiErrorResponse::bad_request("Invalid severity")),
    };
    let device_id = match &payload.device_id {
        Some(d) => match parse_uuid(d.as_str()) {
            Some(u) => Some(u),
            None => return Err(ApiErrorResponse::bad_request("Invalid device_id format")),
        },
        None => None,
    };
    Ok(Alert::new(alert_type, severity, device_id, payload.message, payload.details))
}

/// The alert and user identifiers of an acknowledgement, or why it is refused.
pub fn acknowledgement_ids(id: &str, payload: &AcknowledgeAlertRequest) -> (r: Result<(u128, u128), ApiErrorResponse>)
    ensures
        match (uuid_parsed(id@), uuid_parsed(payload.user_id@)) {
            (None, _) => r matches Err(e) && is_bad_request(e, "Invalid UUID format"@),
            (Some(_), None) => r matches Err(e) && is_bad_request(e, "Invalid user_id format"@),
            (Some(a), Some(u)) => r == Ok::<(u128, u128), ApiErrorResponse>((a, u)),
        },
{
    let alert_id = match parse_uuid(id) {
        Some(a) => a,
        None => return Err(ApiErrorResponse::bad_request("Invalid UUID format")),
    };
    let user_id = match parse_uuid(payload.user_id.as_str()) {
        Some(u) => u,
        None => return Err(ApiErrorResponse::bad_request("Invalid user_id format")),
    };
    Ok((alert_id, user_id))
}

/// The number of alerts of `alerts` with severity `s`.
pub open spec fn count_severity(alerts: Seq<Alert>, s: AlertSeverity) -> nat
    decreases alerts.len(),
{
    if alerts.len() == 0 {
        0
    } else {
        count_severity(alerts.drop_last(), s) + if alerts.last().severity == s {
            1nat
        } else {
            0nat
        }
    }
}

proof fn lemma_counts_sum(alerts: Seq<Alert>)
    ensures
        count_severity(alerts, AlertSeverity::Critical) + count_severity(alerts, AlertSeverity::High)
            + count_severity(alerts, AlertSeverity::Medium) + count_severity(
            alerts,
            AlertSeverity::Low,
        ) == alerts.len(),
    decreases alerts.len(),
{
    if alerts.len() > 0 {
        lemma_counts_sum(alerts.drop_last());
    }
}

/// The alerts of `alerts` that have severity `s`.
pub open spec fn of_severity(alerts: Seq<Alert>, s: AlertSeverity) -> Seq<Alert> {
    alerts.filter(|a: Alert| a.severity == s)
}

proof fn lemma_count_is_filter(alerts: Seq<Alert>, s: AlertSeverity)
    ensures
        count_severity(alerts, s) == of_severity(alerts, s).len(),
    decreases alerts.len(),
{
    if alerts.len() > 0 {
        let init = alerts.drop_last();
        lemma_count_is_filter(init, s);
        assert(init.push(alerts.last()) =~= alerts);
        init.lemma_filter_len_push(|a: Alert| a.severity == s, alerts.last());
    }
}

/// Alert statistics: how many alerts are in each status, and how the active
/// ones split by severity.
#[derive(Debug, Clone, Copy, PartialEq, Eq)]
pub struct AlertStats {
    pub total_active: usize,
    pub total_acknowledged: usize,
    pub total_resolved: usize,
    pub critical: usize,
    pub high: usize,
    pub medium: usize,
    pub low: usize,
}

/// `s` are the statistics of the active alerts `active` and of `acknowledged`
/// acknowledged and `resolved` resolved ones.
pub open spec fn stats_of(s: AlertStats, active: Seq<Alert>, acknowledged: nat, resolved: nat) -> bool {
    &&& s.total_active == active.len()
    &&& s.total_acknowledged == acknowledged
    &&& s.total_resolved == resolved
    &&& s.critical == count_severity(active, AlertSeverity::Critical)
    &&& s.high == count_severity(active, AlertSeverity::High)
    &&& s.medium == count_severity(active, AlertSeverity::Medium)
    &&& s.low == count_severity(active, AlertSeverity::Low)
}

/// The statistics count each active alert under its own severity: each
/// severity count is the number of active alerts of that severity, and the
/// four counts add up to the active total.
pub proof fn law_alert_stats(s: AlertStats, active: Seq<Alert>, acknowledged: nat, resolved: nat)
    requires
        stats_of(s, active, acknowledged, resolved),
    ensures
        s.critical == of_severity(active, AlertSeverity::Critical).len(),
        s.high == of_severity(active, AlertSeverity::High).len(),
        s.medium == of_severity(active, AlertSeverity::Medium).len(),
        s.low == of_severity(active, AlertSeverity::Low).len(),
        s.critical + s.high + s.medium + s.low == s.total_active,
        s.total_active == active.len(),
        s.total_acknowledged == acknowledged,
        s.total_resolved == resolved,
{
    lemma_count_is_filter(active, AlertSeverity::Critical);
    lemma_count_is_filter(active, AlertSeverity::High);
    lemma_count_is_filter(active, AlertSeverity::Medium);
    lemma_count_is_filter(active, AlertSeverity::Low);
    lemma_counts_sum(active);
}

/// The statistics of the active, acknowledged and resolved alerts given.
/// The severity counts of the active alerts add up to their total.
pub fn alert_stats(active: &Vec<Alert>, acknowledged: &Vec<Alert>, resolved: &Vec<Alert>) -> (s:
    AlertStats)
    ensures
        s.total_active == active@.len(),
        s.total_acknowledged == acknowledged@.len(),
        s.total_resolved == resolved@.len(),
        s.critical == count_severity(active@, AlertSeverity::Critical),
        s.high == count_severity(active@, AlertSeverity::High),
        s.medium == count_severity(active@, AlertSeverity::Medium),
        s.low == count_severity(active@, AlertSeverity::Low),
        s.critical + s.high + s.medium + s.low == s.total_active,
        s.critical == of_severity(active@, AlertSeverity::Critical).len(),
        s.high == of_severity(active@, AlertSeverity::High).len(),
        s.medium == of_severity(active@, AlertSeverity::Medium).len(),
        s.low == of_severity(active@, AlertSeverity::Low).len(),
{
    proof {
        lemma_count_is_filter(active@, AlertSeverity::Critical);
        lemma_count_is_filter(active@, AlertSeverity::High);
        lemma_count_is_filter(active@, AlertSeverity::Medium);
        lemma_count_is_filter(active@, AlertSeverity::Low);
    }
    let n = active.len();
    let mut critical: usize = 0;
    let mut high: usize = 0;
    let mut medium: usize = 0;
    let mut low: usize = 0;
    let mut i: usize = 0;
    assert(active@.take(0) =~= Seq::<Alert>::empty());
    while i < n
        invariant
            n == active@.len(),
            i <= n,
            critical == count_severity(active@.take(i as int), AlertSeverity::Critical),
            high == count_severity(active@.take(i as int), AlertSeverity::High),
            medium == count_severity(active@.take(i as int), AlertSeverity::Medium),
            low == count_severity(active@.take(i as int), AlertSeverity::Low),
            critical + high + medium + low == i,
        decreases n - i,
    {
        assert(active@.take(i + 1).drop_last() =~= active@.take(i as int));
        match active[i].severity {
            AlertSeverity::Critical => critical = critical + 1,
            AlertSeverity::High => high = high + 1,
            AlertSeverity::Medium => medium = medium + 1,
            AlertSeverity::Low => low = low + 1,
        }
        i = i + 1;
    }
    assert(active@.take(n as int) =~= active@);
    proof {
        lemma_counts_sum(active@);
    }
    AlertStats {
        total_active: n,
        total_acknowledged: acknowledged.len(),
        total_resolved: resolved.len(),
        critical,
        high,
        medium,
        low,
    }
}

/// What a registration request names: its device type and site, or why it
/// is refused (an unknown device type, or a malformed site identifier).
pub open spec fn device_request_check(payload: CreateDeviceRequest) -> Result<
    (DeviceType, u128),
    Seq<char>,
> {
    match parse_device_type(payload.device_type@) {
        None => Err("Invalid device_type"@),
        Some(t) => match uuid_parsed(payload.sede_id@) {
            None => Err("Invalid sede_id format"@),
            Some(s) => Ok((t, s)),
        },
    }
}

/// `d` is a new device, offline and never seen, registered with these fields.
pub open spec fn registered_with(
    d: Device,
    hostname: String,
    ip_address: String,
    device_type: DeviceType,
    sede_id: u128,
) -> bool {
    &&& is_v4(d.id)
    &&& d.hostname == hostname
    &&& d.ip_address == ip_address
    &&& d.mac_address is None
    &&& d.device_type == device_type
    &&& d.status == DeviceStatus::Offline
    &&& d.sede_id == sede_id
    &&& d.last_seen_at is None
    &&& d.deleted_at is None
}

/// A device registered from an accepted request has the host name and
/// address the request gives, the type the request names, the site whose
/// identifier the request gives, and starts offline, never seen and not
/// deleted.
pub proof fn law_device_registration(d: Device, payload: CreateDeviceRequest)
    requires
        device_request_check(payload) matches Ok((t, site)) && registered_with(
            d,
            payload.hostname,
            payload.ip_address,
            t,
            site,
        ),
    ensures
        d.hostname@ == payload.hostname@,
        d.ip_address@ == payload.ip_address@,
        device_type_name(d.device_type) == payload.device_type@,
        uuid_parsed(payload.sede_id@) == Some(d.sede_id),
        d.status == DeviceStatus::Offline,
        device_status_name(d.status) == "Offline"@,
        d.mac_address is None && d.last_seen_at is None && d.deleted_at is None,
{
    law_device_type_names(d.device_type, payload.device_type@);
    law_device_status_names(DeviceStatus::Offline, Seq::empty());
    reveal_strlit("Offline");
}

/// The device a registration request asks for, or why it is refused.
pub fn device_from_request(payload: CreateDeviceRequest) -> (r: Result<Device, ApiErrorResponse>)
    ensures
        match device_request_check(payload) {
            Err(m) => r matches Err(e) && is_bad_request(e, m),
            Ok((t, s)) => r matches Ok(d) && registered_with(
                d,
                payload.hostname,
                payload.ip_address,
                t,
                s,
            ),
        },
{
    let device_type = match device_type_from_text(payload.device_type.as_str()) {
        Some(t) => t,
        None => return Err(ApiErrorResponse::bad_request("Invalid device_type")),
    };
    let sede_id = match parse_uuid(payload.sede_id.as_str()) {
        Some(s) => s,
        None => return Err(ApiErrorResponse::bad_request("Invalid sede_id format")),
    };
    Ok(Device::new(payload.hostname, payload.ip_address, device_type, sede_id))
}

/// `device` changed as `payload` asks, or why the change is refused: an
/// unknown device type, or else an unknown status. Absent fields are kept.
pub open spec fn device_update(device: Device, payload: UpdateDeviceRequest) -> Result<
    Device,
    Seq<char>,
> {
    let device_type = match payload.device_type {
        Some(t) => parse_device_type(t@),
        None => Some(device.device_type),
    };
    let status = match payload.status {
        Some(s) => parse_device_status(s@),
        None => Some(device.status),
    };
    match device_type {
        None => Err("Invalid device_type"@),
        Some(t) => match status {
            None => Err("Invalid status"@),
            Some(st) => Ok(
                Device {
                    id: device.id,
                    hostname: match payload.hostname {
                        Some(h) => h,
                        None => device.hostname,
                    },
                    ip_address: match payload.ip_address {
                        Some(ip) => ip,
                        None => device.ip_address,
                    },
                    mac_address: device.mac_address,
                    device_type: t,
                    status: st,
                    sede_id: device.sede_id,
                    last_seen_at: device.last_seen_at,
                    created_at: device.created_at,
                    updated_at: device.updated_at,
                    deleted_at: device.deleted_at,
                },
            ),
        },
    }
}

/// `d` is `device` with every field present in `payload` taken from it (a
/// type or status by its name) and every other field kept.
pub open spec fn changed_as_asked(device: Device, payload: UpdateDeviceRequest, d: Device) -> bool {
    &&& payload.hostname matches Some(h) ==> d.hostname == h
    &&& payload.hostname is None ==> d.hostname == device.hostname
    &&& payload.ip_address matches Some(ip) ==> d.ip_address == ip
    &&& payload.ip_address is None ==> d.ip_address == device.ip_address
    &&& payload.device_type matches Some(t) ==> device_type_name(d.device_type) == t@
    &&& payload.device_type is None ==> d.device_type == device.device_type
    &&& payload.status matches Some(st) ==> device_status_name(d.status) == st@
    &&& payload.status is None ==> d.status == device.status
    &&& d.id == device.id
    &&& d.mac_address == device.mac_address
    &&& d.sede_id == device.sede_id
    &&& d.last_seen_at == device.last_seen_at
    &&& d.created_at == device.created_at
    &&& d.updated_at == device.updated_at
    &&& d.deleted_at == device.deleted_at
}

/// The request names a device type that is not one.
pub open spec fn names_unknown_type(payload: UpdateDeviceRequest) -> bool {
    match payload.device_type {
        Some(t) => parse_device_type(t@) is None,
        None => false,
    }
}

/// The request names a device status that is not one.
pub open spec fn names_unknown_status(payload: UpdateDeviceRequest) -> bool {
    match payload.status {
        Some(st) => parse_device_status(st@) is None,
        None => false,
    }
}

/// A device update takes every field the request gives: the host name and
/// address as given, the type and status named by the request, and keeps
/// everything else. It is refused exactly when the request names a type
/// that is not a device type (`Invalid device_type`), or else a status that
/// is not a device status (`Invalid status`).
pub proof fn law_device_update(device: Device, payload: UpdateDeviceRequest)
    ensures
        device_update(device, payload) matches Ok(d) ==> changed_as_asked(device, payload, d),
        device_update(device, payload) is Err <==> (names_unknown_type(payload)
            || names_unknown_status(payload)),
        names_unknown_type(payload) ==> device_update(device, payload) == Err::<Device, Seq<char>>(
            "Invalid device_type"@,
        ),
        !names_unknown_type(payload) && names_unknown_status(payload) ==> device_update(
            device,
            payload,
        ) == Err::<Device, Seq<char>>("Invalid status"@),
{
    if let Some(t) = payload.device_type {
        law_device_type_names(DeviceType::Switch, t@);
    }
    if let Some(st) = payload.status {
        law_device_status_names(DeviceStatus::Active, st@);
    }
}

/// A site update takes every field the request gives and keeps every other
/// one, and the site's identity and instants.
pub proof fn law_sede_update(sede: Sede, payload: UpdateSedeRequest)
    ensures
        payload.nombre matches Some(n) ==> sede_update(sede, payload).nombre == n,
        payload.ubicacion matches Some(u) ==> sede_update(sede, payload).ubicacion == u,
        payload.secretaria matches Some(x) ==> sede_update(sede, payload).secretaria == x,
        payload.nombre is None ==> sede_update(sede, payload).nombre == sede.nombre,
        payload.ubicacion is None ==> sede_update(sede, payload).ubicacion == sede.ubicacion,
        payload.secretaria is None ==> sede_update(sede, payload).secretaria == sede.secretaria,
        sede_update(sede, payload).id == sede.id,
        sede_update(sede, payload).created_at == sede.created_at,
        sede_update(sede, payload).updated_at == sede.updated_at,
        sede_update(sede, payload).deleted_at == sede.deleted_at,
{
}

/// `device` changed as `payload` asks, or why the change is refused.
pub fn apply_device_update(device: Device, payload: UpdateDeviceRequest) -> (r: Result<
    Device,
    ApiErrorResponse,
>)
    ensures
        match device_update(device, payload) {
            Ok(d) => r == Ok::<Device, ApiErrorResponse>(d),
            Err(m) => r matches Err(e) && is_bad_request(e, m),
        },
        r matches Ok(d) ==> changed_as_asked(device, payload, d),
{
    proof {
        law_device_update(device, payload);
    }
    let mut device = device;
    let UpdateDeviceRequest { hostname, ip_address, device_type, status } = payload;
    if let Some(h) = hostname {
        device.hostname = h;
    }
    if let Some(ip) = ip_address {
        device.ip_address = ip;
    }
    if let Some(t) = &device_type {
        match device_type_from_text(t.as_str()) {
            Some(dt) => device.device_type = dt,
            None => return Err(ApiErrorResponse::bad_request("Invalid device_type")),
        }
    }
    if let Some(s) = &status {
        match device_status_from_text(s.as_str()) {
            Some(st) => device.status = st,
            None => return Err(ApiErrorResponse::bad_request("Invalid status")),
        }
    }
    Ok(device)
}

/// `s` is a new site registered with the fields of `payload`.
pub open spec fn sede_of_request(s: Sede, payload: CreateSedeRequest) -> bool {
    &&& is_v4(s.id)
    &&& s.nombre == payload.nombre
    &&& s.ubicacion == payload.ubicacion
    &&& s.secretaria == payload.secretaria
    &&& s.created_at == s.updated_at
    &&& s.deleted_at is None
}

/// A site registered from a request has the name, location and department
/// the request gives, a fresh identifier, and is not deleted.
pub proof fn law_sede_registration(st: Sede, payload: CreateSedeRequest)
    requires
        sede_of_request(st, payload),
    ensures
        st.nombre@ == payload.nombre@,
        st.ubicacion@ == payload.ubicacion@,
        st.secretaria@ == payload.secretaria@,
        is_v4(st.id),
        st.deleted_at is None,
{
}

/// The site a registration request asks for.
pub fn sede_from_request(payload: CreateSedeRequest) -> (s: Sede)
    ensures
        sede_of_request(s, payload),
{
    Sede::new(payload.nombre, payload.ubicacion, payload.secretaria)
}

/// `sede` changed as `payload` asks; absent fields are kept.
pub open spec fn sede_update(sede: Sede, payload: UpdateSedeRequest) -> Sede {
    Sede {
        id: sede.id,
        nombre: match payload.nombre {
            Some(n) => n,
            None => sede.nombre,
        },
        ubicacion: match payload.ubicacion {
            Some(u) => u,
            None => sede.ubicacion,
        },
        secretaria: match payload.secretaria {
            Some(x) => x,
            None => sede.secretaria,
        },
        created_at: sede.created_at,
        updated_at: sede.updated_at,
        deleted_at: sede.deleted_at,
    }
}

/// `sede` changed as `payload` asks; absent fields are kept.
pub fn apply_sede_update(sede: Sede, payload: UpdateSedeRequest) -> (s: Sede)
    ensures
        s == sede_update(sede, payload),
        payload.nombre matches Some(n) ==> s.nombre == n,
        payload.ubicacion matches Some(u) ==> s.ubicacion == u,
        payload.secretaria matches Some(x) ==> s.secretaria == x,
        payload.nombre is None ==> s.nombre == sede.nombre,
        payload.ubicacion is None ==> s.ubicacion == sede.ubicacion,
        payload.secretaria is None ==> s.secretaria == sede.secretaria,
        s.id == sede.id && s.created_at == sede.created_at && s.updated_at == sede.updated_at
            && s.deleted_at == sede.deleted_at,
{
    proof {
        law_sede_update(sede, payload);
    }
    let mut sede = sede;
    let UpdateSedeRequest { nombre, ubicacion, secretaria } = payload;
    if let Some(n) = nombre {
        sede.nombre = n;
    }
    if let Some(u) = ubicacion {
        sede.ubicacion = u;
    }
    if let Some(x) = secretaria {
        sede.secretaria = x;
    }
    sede
}

/// The answer to what the store gave back: its value, or the error
/// `Database error: <error>`.
pub fn stored<T>(outcome: Result<T, DomainError>) -> (r: Result<T, ApiErrorResponse>)
    ensures
        match outcome {
            Ok(v) => r == Ok::<T, ApiErrorResponse>(v),
            Err(d) => r matches Err(x) && is_store_failure(x, d),
        },
{
    match outcome {
        Ok(v) => Ok(v),
        Err(e) => Err(database_error(&e)),
    }
}

/// The item looked up, or `<resource> not found` when there is none.
pub fn found<T>(item: Option<T>, resource: &str) -> (r: Result<T, ApiErrorResponse>)
    ensures
        match item {
            Some(v) => r == Ok::<T, ApiErrorResponse>(v),
            None => r matches Err(x) && is_not_found(x, resource@),
        },
{
    match item {
        Some(v) => Ok(v),
        None => Err(ApiErrorResponse::not_found(resource)),
    }
}

/// `e` is the answer to some failure of the store.
pub open spec fn is_store_error(e: ApiErrorResponse) -> bool {
    exists|d: DomainError| #[trigger] is_store_failure(e, d)
}

/// The store answered `fetched` to the query `q`.
pub open spec fn listing_answered<R: AlertRepository + ?Sized>(
    repo: &R,
    q: AlertQuery,
    fetched: Result<Vec<Alert>, DomainError>,
) -> bool {
    match q {
        AlertQuery::ByStatus(status) => repo.answers_find_by_status(status, fetched),
        AlertQuery::ByDevice { device_id, limit } => repo.answers_find_by_device(
            device_id,
            limit,
            fetched,
        ),
        AlertQuery::Active => repo.answers_find_active(fetched),
    }
}

/// The store call a listing by `q` makes.
pub open spec fn listing_call(q: AlertQuery) -> AlertCall {
    match q {
        AlertQuery::ByStatus(status) => AlertCall::FindByStatus(status),
        AlertQuery::ByDevice { device_id, limit } => AlertCall::FindByDevice(device_id, limit),
        AlertQuery::Active => AlertCall::FindActive,
    }
}

/// Lists alerts as `query` asks: a refused query is answered with its
/// error; otherwise the store is asked by status, by device or for the
/// active alerts, and what it gives is listed, or its failure answered.
/// That one query is the only call made on the store, and a refused query
/// makes none.
pub fn list_alerts<R: AlertRepository + ?Sized>(
    store: &mut AlertStore<'_, R>,
    query: &ListAlertsQuery,
) -> (r: Result<AlertListResponse, ApiErrorResponse>)
    ensures
        final(store).repository() == old(store).repository(),
        match listing_plan(*query) {
            Err(m) => r matches Err(e) && is_bad_request(e, m) && final(store).calls() == old(store).calls(),
            Ok(q) => final(store).calls() == old(store).calls().push(listing_call(q)) && exists|
                fetched: Result<Vec<Alert>, DomainError>,
            |
                #[trigger] listing_answered(old(store).repository(), q, fetched) && match fetched {
                    Ok(alerts) => r matches Ok(resp) && lists_alerts(resp, alerts@),
                    Err(d) => r matches Err(e) && is_store_failure(e, d),
                },
        },
{
    let plan = match plan_alert_listing(query) {
        Ok(p) => p,
        Err(e) => return Err(e),
    };
    let fetched = match plan {
        AlertQuery::ByStatus(status) => store.find_by_status(status),
        AlertQuery::ByDevice { device_id, limit } => store.find_by_device(device_id, limit),
        AlertQuery::Active => store.find_active(),
    };
    assert(listing_answered(old(store).repository(), plan, fetched));
    match stored(fetched) {
        Ok(alerts) => {
            let ghost v = alerts@;
            let resp = AlertListResponse::from_alerts(alerts);
            let res: Result<AlertListResponse, ApiErrorResponse> = Ok(resp);
            assert(lists_alerts(res->Ok_0, v));
            res
        },
        Err(e) => Err(e),
    }
}

/// `r` shows the first alert of `v` with identifier `id`.
pub open spec fn shows_first(r: Result<AlertResponse, ApiErrorResponse>, v: Seq<Alert>, id: u128) -> bool {
    r matches Ok(resp) && exists|a: Alert| #[trigger] first_with_id(v, id, a) && shows_alert(resp, a)
}

/// What is answered once the store gave `fetched` when searched for alert
/// `id`: its failure, or the first alert with that identifier, and then
/// `stop` holds (the search ends there); or `rest` when it holds none.
pub open spec fn search_step(
    fetched: Result<Vec<Alert>, DomainError>,
    id: u128,
    r: Result<AlertResponse, ApiErrorResponse>,
    stop: bool,
    rest: bool,
) -> bool {
    match fetched {
        Err(d) => r matches Err(e) && is_store_failure(e, d) && stop,
        Ok(v) => if holds_id(v@, id) {
            shows_first(r, v@, id) && stop
        } else {
            rest
        },
    }
}

fn answer_found(a: Alert, ghost_v: Ghost<Seq<Alert>>, id: u128) -> (r: Result<AlertResponse, ApiErrorResponse>)
    requires
        first_with_id(ghost_v@, id, a),
    ensures
        shows_first(r, ghost_v@, id),
{
    let ghost av = a;
    let resp = AlertResponse::from_alert(a);
    let res: Result<AlertResponse, ApiErrorResponse> = Ok(resp);
    assert(first_with_id(ghost_v@, id, av) && shows_alert(res->Ok_0, av));
    res
}

/// `calls` followed by the three searches for an alert: the active alerts,
/// then the acknowledged ones, then the resolved ones.
pub open spec fn searched_all(calls: Seq<AlertCall>) -> Seq<AlertCall> {
    calls.push(AlertCall::FindActive).push(AlertCall::FindByStatus(AlertStatus::Acknowledged)).push(
        AlertCall::FindByStatus(AlertStatus::Resolved),
    )
}

/// The alert with identifier `id`, whatever its status: a malformed
/// identifier is refused; otherwise the store's active alerts are searched,
/// then the acknowledged ones, then the resolved ones, and the first alert
/// with that identifier is shown; an identifier of no alert is answered
/// `Alert not found`, and a failure of the store is answered as such.
/// The store is asked only as far as the search goes, and nothing is
/// written.
pub fn get_alert<R: AlertRepository + ?Sized>(store: &mut AlertStore<'_, R>, id: &str) -> (r: Result<
    AlertResponse,
    ApiErrorResponse,
>)
    ensures
        final(store).repository() == old(store).repository(),
        match uuid_parsed(id@) {
            None => r matches Err(e) && is_bad_request(e, "Invalid UUID format"@) && final(store).calls() == old(store).calls(),
            Some(u) => exists|f1: Result<Vec<Alert>, DomainError>|
                #[trigger] old(store).repository().answers_find_active(f1) && search_step(
                    f1,
                    u,
                    r,
                    final(store).calls() == old(store).calls().push(AlertCall::FindActive),
                    exists|f2: Result<Vec<Alert>, DomainError>|
                        #[trigger] old(store).repository().answers_find_by_status(
                            AlertStatus::Acknowledged,
                            f2,
                        ) && search_step(
                            f2,
                            u,
                            r,
                            final(store).calls() == old(store).calls().push(
                                AlertCall::FindActive,
                            ).push(AlertCall::FindByStatus(AlertStatus::Acknowledged)),
                            exists|f3: Result<Vec<Alert>, DomainError>|
                                #[trigger] old(store).repository().answers_find_by_status(
                                    AlertStatus::Resolved,
                                    f3,
                                ) && search_step(
                                    f3,
                                    u,
                                    r,
                                    final(store).calls() == searched_all(old(store).calls()),
                                    r matches Err(e) && is_not_found(e, "Alert"@) && final(store).calls() == searched_all(old(store).calls()),
                                ),
                        ),
                ),
        },
{
    let uuid = match parse_path_id(id) {
        Ok(u) => u,
        Err(e) => return Err(e),
    };
    let f1 = store.find_active();
    let ghost g1 = f1;
    let active = match stored(f1) {
        Ok(v) => v,
        Err(e) => return Err(e),
    };
    let ghost v1 = active@;
    if let Ok(a) = find_alert_by_id(active, uuid) {
        let r = answer_found(a, Ghost(v1), uuid);
        assert(search_step(g1, uuid, r, store.calls() == old(store).calls().push(AlertCall::FindActive), false));
        return r;
    }
    let f2 = store.find_by_status(AlertStatus::Acknowledged);
    let ghost g2 = f2;
    let acknowledged = match stored(f2) {
        Ok(v) => v,
        Err(e) => {
            let r: Result<AlertResponse, ApiErrorResponse> = Err(e);
            assert(search_step(g2, uuid, r, store.calls() == old(store).calls().push(AlertCall::FindActive).push(AlertCall::FindByStatus(AlertStatus::Acknowledged)), false));
            return r;
        },
    };
    let ghost v2 = acknowledged@;
    if let Ok(a) = find_alert_by_id(acknowledged, uuid) {
        let r = answer_found(a, Ghost(v2), uuid);
        assert(search_step(g2, uuid, r, store.calls() == old(store).calls().push(AlertCall::FindActive).push(AlertCall::FindByStatus(AlertStatus::Acknowledged)), false));
        return r;
    }
    let f3 = store.find_by_status(AlertStatus::Resolved);
    let ghost g3 = f3;
    let resolved = match stored(f3) {
        Ok(v) => v,
        Err(e) => {
            let r: Result<AlertResponse, ApiErrorResponse> = Err(e);
            assert(search_step(g3, uuid, r, store.calls() == searched_all(old(store).calls()), false));
            return r;
        },
    };
    let ghost v3 = resolved@;
    match find_alert_by_id(resolved, uuid) {
        Ok(a) => {
            let r = answer_found(a, Ghost(v3), uuid);
            assert(search_step(g3, uuid, r, store.calls() == searched_all(old(store).calls()), false));
            r
        },
        Err(e) => Err(e),
    }
}

/// Raises the alert a request asks for and hands it to the store to save: a
/// refused request is answered with its error; otherwise what the store kept
/// is shown, or its failure answered. A refused request writes nothing; an
/// accepted one makes that one save and no other call.
pub fn create_alert<R: AlertRepository + ?Sized>(
    store: &mut AlertStore<'_, R>,
    payload: CreateAlertRequest,
) -> (r: Result<AlertResponse, ApiErrorResponse>)
    ensures
        final(store).repository() == old(store).repository(),
        match alert_request_check(payload) {
            Err(m) => r matches Err(e) && is_bad_request(e, m) && final(store).calls() == old(store).calls(),
            Ok((t, s, d)) => exists|a: Alert, saved: Result<Alert, DomainError>|
                {
                    &&& #[trigger] old(store).repository().answers_save(a, saved)
                    &&& final(store).calls() == old(store).calls().push(AlertCall::Save(a))
                    &&& raised_with(a, t, s, d, payload.message, payload.details)
                    &&& match saved {
                        Ok(c) => r matches Ok(resp) && shows_alert(resp, c),
                        Err(x) => r matches Err(e) && is_store_failure(e, x),
                    }
                },
        },
{
    let ghost check = alert_request_check(payload);
    let ghost (message, details) = (payload.message, payload.details);
    let alert = match alert_from_request(payload) {
        Ok(a) => a,
        Err(e) => return Err(e),
    };
    let saved = store.save(&alert);
    assert(old(store).repository().answers_save(alert, saved));
    match stored(saved) {
        Ok(created) => {
            let ghost c = created;
            let resp = AlertResponse::from_alert(created);
            let res: Result<AlertResponse, ApiErrorResponse> = Ok(resp);
            assert(shows_alert(res->Ok_0, c));
            res
        },
        Err(e) => Err(e),
    }
}

/// What an action on an alert is confirmed with.
#[derive(Debug, Clone)]
pub struct AlertActionResponse {
    pub message: String,
    pub alert_id: String,
}


/// Records that a user acknowledged an alert: malformed identifiers are
/// refused; otherwise the store is asked to record it, and its success is
/// confirmed with `Alert acknowledged successfully` and the alert's
/// identifier, or its failure answered.
pub fn acknowledge_alert<R: AlertRepository + ?Sized>(
    store: &mut AlertStore<'_, R>,
    id: &str,
    payload: &AcknowledgeAlertRequest,
) -> (r: Result<AlertActionResponse, ApiErrorResponse>)
    ensures
        final(store).repository() == old(store).repository(),
        match (uuid_parsed(id@), uuid_parsed(payload.user_id@)) {
            (Some(a), Some(u)) => final(store).calls() == old(store).calls().push(
                AlertCall::Acknowledge(a, u),
            ),
            _ => final(store).calls() == old(store).calls(),
        },
        match (uuid_parsed(id@), uuid_parsed(payload.user_id@)) {
            (None, _) => r matches Err(e) && is_bad_request(e, "Invalid UUID format"@),
            (Some(_), None) => r matches Err(e) && is_bad_request(e, "Invalid user_id format"@),
            (Some(a), Some(u)) => exists|done: Result<(), DomainError>|
                #[trigger] old(store).repository().answers_acknowledge(a, u, done) && match done {
                    Ok(_) => r matches Ok(c) && c.message@ == "Alert acknowledged successfully"@
                        && c.alert_id@ == uuid_hyphenated(a),
                    Err(x) => r matches Err(e) && is_store_failure(e, x),
                },
        },
{
    let (alert_id, user_id) = match acknowledgement_ids(id, payload) {
        Ok(ids) => ids,
        Err(e) => return Err(e),
    };
    let done = store.acknowledge(alert_id, user_id);
    assert(old(store).repository().answers_acknowledge(alert_id, user_id, done));
    match stored(done) {
        Ok(_) => Ok(
            AlertActionResponse {
                message: String::from_str("Alert acknowledged successfully"),
                alert_id: uuid_to_text(alert_id),
            },
        ),
        Err(e) => Err(e),
    }
}

/// Records that an alert is resolved: a malformed identifier is refused;
/// otherwise the store is asked to record it, and its success is confirmed
/// with `Alert resolved successfully` and the alert's identifier, or its
/// failure answered.
pub fn resolve_alert<R: AlertRepository + ?Sized>(store: &mut AlertStore<'_, R>, id: &str) -> (r: Result<
    AlertActionResponse,
    ApiErrorResponse,
>)
    ensures
        final(store).repository() == old(store).repository(),
        match uuid_parsed(id@) {
            Some(a) => final(store).calls() == old(store).calls().push(AlertCall::Resolve(a)),
            None => final(store).calls() == old(store).calls(),
        },
        match uuid_parsed(id@) {
            None => r matches Err(e) && is_bad_request(e, "Invalid UUID format"@),
            Some(a) => exists|done: Result<(), DomainError>|
                #[trigger] old(store).repository().answers_resolve(a, done) && match done {
                    Ok(_) => r matches Ok(c) && c.message@ == "Alert resolved successfully"@
                        && c.alert_id@ == uuid_hyphenated(a),
                    Err(x) => r matches Err(e) && is_store_failure(e, x),
                },
        },
{
    let alert_id = match parse_path_id(id) {
        Ok(u) => u,
        Err(e) => return Err(e),
    };
    let done = store.resolve(alert_id);
    assert(old(store).repository().answers_resolve(alert_id, done));
    match stored(done) {
        Ok(_) => Ok(
            AlertActionResponse {
                message: String::from_str("Alert resolved successfully"),
                alert_id: uuid_to_text(alert_id),
            },
        ),
        Err(e) => Err(e),
    }
}

/// What is answered once the store gave `fetched` for one status of the
/// statistics: its failure, and then `stop` holds (nothing more is asked);
/// or `rest` over the alerts it gave.
pub open spec fn stats_step(
    fetched: Result<Vec<Alert>, DomainError>,
    r: Result<AlertStats, ApiErrorResponse>,
    stop: bool,
    rest: spec_fn(Seq<Alert>) -> bool,
) -> bool {
    match fetched {
        Err(d) => r matches Err(e) && is_store_failure(e, d) && stop,
        Ok(v) => rest(v@),
    }
}

/// `calls` followed by the first `n` of the statistics' three requests:
/// the active, the acknowledged and the resolved alerts.
pub open spec fn stats_calls(calls: Seq<AlertCall>, n: int) -> Seq<AlertCall> {
    calls + seq![
        AlertCall::FindByStatus(AlertStatus::Active),
        AlertCall::FindByStatus(AlertStatus::Acknowledged),
        AlertCall::FindByStatus(AlertStatus::Resolved),
    ].take(n)
}

/// The alert statistics: the store is asked for the active, then the
/// acknowledged, then the resolved alerts; the totals count each answer and
/// the severity counts split the active ones. A failure of the store is
/// answered as such, and nothing more is asked after it; nothing is written.
pub fn get_alert_stats<R: AlertRepository + ?Sized>(store: &mut AlertStore<'_, R>) -> (r: Result<
    AlertStats,
    ApiErrorResponse,
>)
    ensures
        final(store).repository() == old(store).repository(),
        exists|fa: Result<Vec<Alert>, DomainError>|
            #[trigger] old(store).repository().answers_find_by_status(AlertStatus::Active, fa)
                && stats_step(
                fa,
                r,
                final(store).calls() == stats_calls(old(store).calls(), 1),
                |a: Seq<Alert>|
                    exists|fk: Result<Vec<Alert>, DomainError>|
                        #[trigger] old(store).repository().answers_find_by_status(
                            AlertStatus::Acknowledged,
                            fk,
                        ) && stats_step(
                            fk,
                            r,
                            final(store).calls() == stats_calls(old(store).calls(), 2),
                            |k: Seq<Alert>|
                                exists|fr: Result<Vec<Alert>, DomainError>|
                                    #[trigger] old(store).repository().answers_find_by_status(
                                        AlertStatus::Resolved,
                                        fr,
                                    ) && stats_step(
                                        fr,
                                        r,
                                        final(store).calls() == stats_calls(old(store).calls(), 3),
                                        |z: Seq<Alert>|
                                            r matches Ok(s) && stats_of(s, a, k.len(), z.len())
                                                && final(store).calls() == stats_calls(
                                                old(store).calls(),
                                                3,
                                            ),
                                    ),
                        ),
            ),
{
    let ghost calls0 = store.calls();
    let fa = store.find_by_status(AlertStatus::Active);
    assert(store.calls() =~= stats_calls(calls0, 1));
    let ghost ga = fa;
    let active = match stored(fa) {
        Ok(v) => v,
        Err(e) => return Err(e),
    };
    let fk = store.find_by_status(AlertStatus::Acknowledged);
    assert(store.calls() =~= stats_calls(calls0, 2));
    let ghost gk = fk;
    let acknowledged = match stored(fk) {
        Ok(v) => v,
        Err(e) => return Err(e),
    };
    let fr = store.find_by_status(AlertStatus::Resolved);
    assert(store.calls() =~= stats_calls(calls0, 3));
    let ghost gr = fr;
    let resolved = match stored(fr) {
        Ok(v) => v,
        Err(e) => return Err(e),
    };
    let stats = alert_stats(&active, &acknowledged, &resolved);
    Ok(stats)
}

/// The devices as the API shows them, in order.
pub fn device_responses(devices: Vec<Device>) -> (r: Vec<DeviceResponse>)
    ensures
        lists_devices(r@, devices@),
{
    let mut devices = devices;
    let ghost given = devices@;
    let mut out: Vec<DeviceResponse> = Vec::new();
    let mut rest: Vec<DeviceResponse> = Vec::new();
    let n = devices.len();
    let mut k: usize = n;
    while k > 0
        invariant
            k <= n,
            n == given.len(),
            devices@ == given.take(k as int),
            rest@.len() == n - k,
            forall|j: int| 0 <= j < n - k ==> shows_device(#[trigger] rest@[j], given[n - 1 - j]),
        decreases k,
    {
        let d = devices.pop().unwrap();
        assert(d == given[k - 1]);
        rest.push(DeviceResponse::from_device(d));
        k = k - 1;
        assert(devices@ =~= given.take(k as int));
    }
    let mut m: usize = rest.len();
    while m > 0
        invariant
            m <= n,
            rest@.len() == m,
            out@.len() == n - m,
            forall|j: int| 0 <= j < m ==> shows_device(#[trigger] rest@[j], given[n - 1 - j]),
            forall|j: int| 0 <= j < n - m ==> shows_device(#[trigger] out@[j], given[j]),
        decreases m,
    {
        let resp = rest.pop().unwrap();
        assert(shows_device(resp, given[n - m]));
        out.push(resp);
        m = m - 1;
    }
    out
}

/// Every device the store lists, as the API shows them; a failure of the
/// store is answered as such.
pub fn list_devices<R: DeviceRepository + ?Sized>(store: &mut DeviceStore<'_, R>) -> (r: Result<
    Vec<DeviceResponse>,
    ApiErrorResponse,
>)
    ensures
        final(store).repository() == old(store).repository(),
        final(store).calls() == old(store).calls().push(DeviceCall::List),
        exists|listed: Result<Vec<Device>, DomainError>|
            #[trigger] old(store).repository().answers_list(listed) && match listed {
                Ok(v) => r matches Ok(x) && lists_devices(x@, v@),
                Err(d) => r matches Err(e) && is_store_failure(e, d),
            },
{
    let listed = store.list();
    assert(old(store).repository().answers_list(listed));
    match stored(listed) {
        Ok(devices) => {
            let ghost v = devices@;
            let res: Result<Vec<DeviceResponse>, ApiErrorResponse> = Ok(device_responses(devices));
            assert(lists_devices(res->Ok_0@, v));
            res
        },
        Err(e) => Err(e),
    }
}

/// The device with identifier `id`: a malformed identifier is refused;
/// otherwise the store is asked for it, and it is shown, or answered
/// `Device not found`, or the store's failure answered.
pub fn get_device<R: DeviceRepository + ?Sized>(store: &mut DeviceStore<'_, R>, id: &str) -> (r: Result<
    DeviceResponse,
    ApiErrorResponse,
>)
    ensures
        final(store).repository() == old(store).repository(),
        match uuid_parsed(id@) {
            Some(u) => final(store).calls() == old(store).calls().push(DeviceCall::FindById(u)),
            None => final(store).calls() == old(store).calls(),
        },
        match uuid_parsed(id@) {
            None => r matches Err(e) && is_bad_request(e, "Invalid UUID format"@),
            Some(u) => exists|f: Result<Option<Device>, DomainError>|
                #[trigger] old(store).repository().answers_find_by_id(u, f) && match f {
                    Err(d) => r matches Err(e) && is_store_failure(e, d),
                    Ok(None) => r matches Err(e) && is_not_found(e, "Device"@),
                    Ok(Some(d)) => r matches Ok(resp) && shows_device(resp, d),
                },
        },
{
    let uuid = match parse_path_id(id) {
        Ok(u) => u,
        Err(e) => return Err(e),
    };
    let f = store.find_by_id(uuid);
    assert(old(store).repository().answers_find_by_id(uuid, f));
    let found_device = match stored(f) {
        Ok(v) => v,
        Err(e) => return Err(e),
    };
    match found(found_device, "Device") {
        Ok(d) => {
            let ghost dv = d;
            let resp = DeviceResponse::from_device(d);
            let res: Result<DeviceResponse, ApiErrorResponse> = Ok(resp);
            assert(shows_device(res->Ok_0, dv));
            res
        },
        Err(e) => Err(e),
    }
}

/// Registers the device a request asks for and hands it to the store to
/// save: a refused request is answered with its error; otherwise what the
/// store kept is shown, or its failure answered. A refused request writes
/// nothing; an accepted one makes that one save and no other call.
pub fn create_device<R: DeviceRepository + ?Sized>(
    store: &mut DeviceStore<'_, R>,
    payload: CreateDeviceRequest,
) -> (r: Result<DeviceResponse, ApiErrorResponse>)
    ensures
        final(store).repository() == old(store).repository(),
        match device_request_check(payload) {
            Err(m) => r matches Err(e) && is_bad_request(e, m) && final(store).calls() == old(store).calls(),
            Ok((t, s)) => exists|d: Device, saved: Result<Device, DomainError>|
                {
                    &&& #[trigger] old(store).repository().answers_save(d, saved)
                    &&& final(store).calls() == old(store).calls().push(DeviceCall::Save(d))
                    &&& registered_with(d, payload.hostname, payload.ip_address, t, s)
                    &&& match saved {
                        Ok(c) => r matches Ok(resp) && shows_device(resp, c),
                        Err(x) => r matches Err(e) && is_store_failure(e, x),
                    }
                },
        },
{
    let device = match device_from_request(payload) {
        Ok(d) => d,
        Err(e) => return Err(e),
    };
    let saved = store.save(&device);
    assert(old(store).repository().answers_save(device, saved));
    match stored(saved) {
        Ok(created) => {
            let ghost c = created;
            let resp = DeviceResponse::from_device(created);
            let res: Result<DeviceResponse, ApiErrorResponse> = Ok(resp);
            assert(shows_device(res->Ok_0, c));
            res
        },
        Err(e) => Err(e),
    }
}

/// Changes the device with identifier `id` as a request asks: a malformed
/// identifier is refused; otherwise the store is asked for the device, and
/// an unknown one is answered `Device not found`; a change with an unknown
/// type or status is refused; otherwise the changed device is handed to the
/// store to save, and what it kept is shown. A failure of the store is
/// answered as such. The device is looked up once, and the changed device
/// is the one write, made only once the change is accepted.
pub fn update_device<R: DeviceRepository + ?Sized>(
    store: &mut DeviceStore<'_, R>,
    id: &str,
    payload: UpdateDeviceRequest,
) -> (r: Result<DeviceResponse, ApiErrorResponse>)
    ensures
        final(store).repository() == old(store).repository(),
        match uuid_parsed(id@) {
            None => r matches Err(e) && is_bad_request(e, "Invalid UUID format"@) && final(store).calls() == old(store).calls(),
            Some(u) => exists|f: Result<Option<Device>, DomainError>|
                #[trigger] old(store).repository().answers_find_by_id(u, f) && match f {
                    Ok(Some(d)) => match device_update(d, payload) {
                        Ok(changed) => final(store).calls() == old(store).calls().push(
                            DeviceCall::FindById(u),
                        ).push(DeviceCall::Save(changed)),
                        Err(_) => final(store).calls() == old(store).calls().push(
                            DeviceCall::FindById(u),
                        ),
                    },
                    _ => final(store).calls() == old(store).calls().push(DeviceCall::FindById(u)),
                } && match f {
                    Err(d) => r matches Err(e) && is_store_failure(e, d),
                    Ok(None) => r matches Err(e) && is_not_found(e, "Device"@),
                    Ok(Some(d)) => match device_update(d, payload) {
                        Err(m) => r matches Err(e) && is_bad_request(e, m),
                        Ok(changed) => exists|saved: Result<Device, DomainError>|
                            #[trigger] old(store).repository().answers_save(changed, saved) && match saved {
                                Ok(c) => r matches Ok(resp) && shows_device(resp, c),
                                Err(x) => r matches Err(e) && is_store_failure(e, x),
                            },
                    },
                },
        },
{
    let uuid = match parse_path_id(id) {
        Ok(u) => u,
        Err(e) => return Err(e),
    };
    let f = store.find_by_id(uuid);
    assert(old(store).repository().answers_find_by_id(uuid, f));
    let found_device = match stored(f) {
        Ok(v) => v,
        Err(e) => return Err(e),
    };
    let device = match found(found_device, "Device") {
        Ok(d) => d,
        Err(e) => return Err(e),
    };
    let changed = match apply_device_update(device, payload) {
        Ok(d) => d,
        Err(e) => return Err(e),
    };
    let saved = store.save(&changed);
    assert(old(store).repository().answers_save(changed, saved));
    match stored(saved) {
        Ok(updated) => {
            let ghost c = updated;
            let resp = DeviceResponse::from_device(updated);
            let res: Result<DeviceResponse, ApiErrorResponse> = Ok(resp);
            assert(shows_device(res->Ok_0, c));
            res
        },
        Err(e) => Err(e),
    }
}

/// What a deletion is confirmed with.
#[derive(Debug, Clone)]
pub struct MessageResponse {
    pub message: String,
}

/// Soft-deletes the device with identifier `id`: a malformed identifier is
/// refused; otherwise the store is asked to soft-delete that device, and its
/// success is confirmed with `Device deleted`, or its failure answered. That
/// soft deletion is the only call made on the store.
pub fn delete_device<R: DeviceRepository + ?Sized>(store: &mut DeviceStore<'_, R>, id: &str) -> (r: Result<
    MessageResponse,
    ApiErrorResponse,
>)
    ensures
        final(store).repository() == old(store).repository(),
        match uuid_parsed(id@) {
            Some(u) => final(store).calls() == old(store).calls().push(DeviceCall::SoftDelete(u)),
            None => final(store).calls() == old(store).calls(),
        },
        match uuid_parsed(id@) {
            None => r matches Err(e) && is_bad_request(e, "Invalid UUID format"@),
            Some(u) => exists|done: Result<(), DomainError>|
                #[trigger] old(store).repository().answers_soft_delete(u, done) && match done {
                    Ok(_) => r matches Ok(m) && m.message@ == "Device deleted"@,
                    Err(x) => r matches Err(e) && is_store_failure(e, x),
                },
        },
{
    let uuid = match parse_path_id(id) {
        Ok(u) => u,
        Err(e) => return Err(e),
    };
    let done = store.soft_delete(uuid);
    assert(old(store).repository().answers_soft_delete(uuid, done));
    match stored(done) {
        Ok(_) => Ok(MessageResponse { message: String::from_str("Device deleted") }),
        Err(e) => Err(e),
    }
}

/// The sites as the API shows them, in order.
pub fn sede_responses(sedes: Vec<Sede>) -> (r: Vec<SedeResponse>)
    ensures
        lists_sedes(r@, sedes@),
{
    let mut sedes = sedes;
    let ghost given = sedes@;
    let mut out: Vec<SedeResponse> = Vec::new();
    let mut rest: Vec<SedeResponse> = Vec::new();
    let n = sedes.len();
    let mut k: usize = n;
    while k > 0
        invariant
            k <= n,
            n == given.len(),
            sedes@ == given.take(k as int),
            rest@.len() == n - k,
            forall|j: int| 0 <= j < n - k ==> shows_sede(#[trigger] rest@[j], given[n - 1 - j]),
        decreases k,
    {
        let s = sedes.pop().unwrap();
        assert(s == given[k - 1]);
        rest.push(SedeResponse::from_sede(s));
        k = k - 1;
        assert(sedes@ =~= given.take(k as int));
    }
    let mut m: usize = rest.len();
    while m > 0
        invariant
            m <= n,
            rest@.len() == m,
            out@.len() == n - m,
            forall|j: int| 0 <= j < m ==> shows_sede(#[trigger] rest@[j], given[n - 1 - j]),
            forall|j: int| 0 <= j < n - m ==> shows_sede(#[trigger] out@[j], given[j]),
        decreases m,
    {
        let resp = rest.pop().unwrap();
        assert(shows_sede(resp, given[n - m]));
        out.push(resp);
        m = m - 1;
    }
    out
}

/// Every site the store lists, as the API shows them; a failure of the
/// store is answered as such.
pub fn list_sedes<R: SedeRepository + ?Sized>(store: &mut SedeStore<'_, R>) -> (r: Result<
    Vec<SedeResponse>,
    ApiErrorResponse,
>)
    ensures
        final(store).repository() == old(store).repository(),
        final(store).calls() == old(store).calls().push(SedeCall::FindAll),
        exists|listed: Result<Vec<Sede>, DomainError>|
            #[trigger] old(store).repository().answers_find_all(listed) && match listed {
                Ok(v) => r matches Ok(x) && lists_sedes(x@, v@),
                Err(d) => r matches Err(e) && is_store_failure(e, d),
            },
{
    let listed = store.find_all();
    assert(old(store).repository().answers_find_all(listed));
    match stored(listed) {
        Ok(sedes) => {
            let ghost v = sedes@;
            let res: Result<Vec<SedeResponse>, ApiErrorResponse> = Ok(sede_responses(sedes));
            assert(lists_sedes(res->Ok_0@, v));
            res
        },
        Err(e) => Err(e),
    }
}

/// The site with identifier `id`: a malformed identifier is refused;
/// otherwise the store is asked for it, and it is shown, or answered
/// `Sede not found`, or the store's failure answered.
pub fn get_sede<R: SedeRepository + ?Sized>(store: &mut SedeStore<'_, R>, id: &str) -> (r: Result<
    SedeResponse,
    ApiErrorResponse,
>)
    ensures
        final(store).repository() == old(store).repository(),
        match uuid_parsed(id@) {
            Some(u) => final(store).calls() == old(store).calls().push(SedeCall::FindById(u)),
            None => final(store).calls() == old(store).calls(),
        },
        match uuid_parsed(id@) {
            None => r matches Err(e) && is_bad_request(e, "Invalid UUID format"@),
            Some(u) => exists|f: Result<Option<Sede>, DomainError>|
                #[trigger] old(store).repository().answers_find_by_id(u, f) && match f {
                    Err(d) => r matches Err(e) && is_store_failure(e, d),
                    Ok(None) => r matches Err(e) && is_not_found(e, "Sede"@),
                    Ok(Some(s)) => r matches Ok(resp) && shows_sede(resp, s),
                },
        },
{
    let uuid = match parse_path_id(id) {
        Ok(u) => u,
        Err(e) => return Err(e),
    };
    let f = store.find_by_id(uuid);
    assert(old(store).repository().answers_find_by_id(uuid, f));
    let found_sede = match stored(f) {
        Ok(v) => v,
        Err(e) => return Err(e),
    };
    match found(found_sede, "Sede") {
        Ok(s) => {
            let ghost sv = s;
            let resp = SedeResponse::from_sede(s);
            let res: Result<SedeResponse, ApiErrorResponse> = Ok(resp);
            assert(shows_sede(res->Ok_0, sv));
            res
        },
        Err(e) => Err(e),
    }
}

/// Registers the site a request asks for and hands it to the store to save;
/// what the store kept is shown, or its failure answered. That one save is
/// the only call made on the store.
pub fn create_sede<R: SedeRepository + ?Sized>(
    store: &mut SedeStore<'_, R>,
    payload: CreateSedeRequest,
) -> (r: Result<SedeResponse, ApiErrorResponse>)
    ensures
        final(store).repository() == old(store).repository(),
        exists|s: Sede, saved: Result<Sede, DomainError>|
            {
                &&& #[trigger] old(store).repository().answers_save(s, saved)
                &&& final(store).calls() == old(store).calls().push(SedeCall::Save(s))
                &&& sede_of_request(s, payload)
                &&& match saved {
                    Ok(c) => r matches Ok(resp) && shows_sede(resp, c),
                    Err(x) => r matches Err(e) && is_store_failure(e, x),
                }
            },
{
    let sede = sede_from_request(payload);
    let saved = store.save(&sede);
    assert(old(store).repository().answers_save(sede, saved));
    match stored(saved) {
        Ok(created) => {
            let ghost c = created;
            let resp = SedeResponse::from_sede(created);
            let res: Result<SedeResponse, ApiErrorResponse> = Ok(resp);
            assert(shows_sede(res->Ok_0, c));
            res
        },
        Err(e) => Err(e),
    }
}

/// Changes the site with identifier `id` as a request asks: a malformed
/// identifier is refused; otherwise the store is asked for the site, and an
/// unknown one is answered `Sede not found`; the changed site is handed to
/// the store to save, and what it kept is shown. A failure of the store is
/// answered as such. The site is looked up once, and the changed site is
/// the one write, made only when the site was found.
pub fn update_sede<R: SedeRepository + ?Sized>(
    store: &mut SedeStore<'_, R>,
    id: &str,
    payload: UpdateSedeRequest,
) -> (r: Result<SedeResponse, ApiErrorResponse>)
    ensures
        final(store).repository() == old(store).repository(),
        match uuid_parsed(id@) {
            None => r matches Err(e) && is_bad_request(e, "Invalid UUID format"@)
                && final(store).calls() == old(store).calls(),
            Some(u) => exists|f: Result<Option<Sede>, DomainError>|
                #[trigger] old(store).repository().answers_find_by_id(u, f) && match f {
                    Ok(Some(s)) => final(store).calls() == old(store).calls().push(
                        SedeCall::FindById(u),
                    ).push(SedeCall::Save(sede_update(s, payload))),
                    _ => final(store).calls() == old(store).calls().push(SedeCall::FindById(u)),
                } && match f {
                    Err(d) => r matches Err(e) && is_store_failure(e, d),
                    Ok(None) => r matches Err(e) && is_not_found(e, "Sede"@),
                    Ok(Some(s)) => exists|saved: Result<Sede, DomainError>|
                        #[trigger] old(store).repository().answers_save(sede_update(s, payload), saved) && match saved {
                            Ok(c) => r matches Ok(resp) && shows_sede(resp, c),
                            Err(x) => r matches Err(e) && is_store_failure(e, x),
                        },
                },
        },
{
    let uuid = match parse_path_id(id) {
        Ok(u) => u,
        Err(e) => return Err(e),
    };
    let f = store.find_by_id(uuid);
    assert(old(store).repository().answers_find_by_id(uuid, f));
    let found_sede = match stored(f) {
        Ok(v) => v,
        Err(e) => return Err(e),
    };
    let sede = match found(found_sede, "Sede") {
        Ok(s) => s,
        Err(e) => return Err(e),
    };
    let changed = apply_sede_update(sede, payload);
    let saved = store.save(&changed);
    assert(old(store).repository().answers_save(changed, saved));
    match stored(saved) {
        Ok(updated) => {
            let ghost c = updated;
            let resp = SedeResponse::from_sede(updated);
            let res: Result<SedeResponse, ApiErrorResponse> = Ok(resp);
            assert(shows_sede(res->Ok_0, c));
            res
        },
        Err(e) => Err(e),
    }
}

} // verus!
