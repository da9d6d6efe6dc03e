use monitoreo::dto::{
    alert_status_from_text, alert_status_text, alert_type_text, device_status_from_text,
    device_status_text, device_type_from_text, device_type_text, severity_text,
    AcknowledgeAlertRequest, AlertListResponse, AlertResponse, ApiErrorResponse, AppError,
    CreateAlertRequest, CreateDeviceRequest, CreateSedeRequest, DeviceResponse, ListAlertsQuery,
    SedeResponse, UpdateDeviceRequest, UpdateSedeRequest,
};
use monitoreo::entities::{
    Alert, AlertSeverity, AlertStatus, AlertType, Device, DeviceStatus, DeviceType, Sede,
};
use monitoreo::errors::DomainError;
use monitoreo::handlers::{
    acknowledgement_ids, alert_from_request, alert_stats, apply_device_update, apply_sede_update,
    database_error, device_from_request, find_alert_by_id, found, parse_path_id,
    plan_alert_listing, sede_from_request, stored, AlertQuery, DEFAULT_ALERT_LIMIT,
};

const ID: &str = "67e55044-10b1-426f-9247-bb680e5fe0c8";
const ID_VALUE: u128 = 0x67e5504410b1426f9247bb680e5fe0c8;

fn alert(severity: AlertSeverity) -> Alert {
    Alert::new(AlertType::PacketLoss, severity, None, "m".to_string(), None)
}

#[test]
fn names_read_back() {
    for t in [
        AlertType::DeviceOffline,
        AlertType::BandwidthSaturation,
        AlertType::PacketLoss,
        AlertType::Intrusion,
        AlertType::TopologyChange,
        AlertType::HighTraffic,
    ] {
        let req = CreateAlertRequest {
            alert_type: alert_type_text(t),
            severity: "Low".to_string(),
            device_id: None,
            message: String::new(),
            details: None,
        };
        assert_eq!(req.to_alert_type(), Some(t));
    }
    for s in [AlertSeverity::Critical, AlertSeverity::High, AlertSeverity::Medium, AlertSeverity::Low] {
        let req = CreateAlertRequest {
            alert_type: "Intrusion".to_string(),
            severity: severity_text(s),
            device_id: None,
            message: String::new(),
            details: None,
        };
        assert_eq!(req.to_severity(), Some(s));
    }
    for s in [AlertStatus::Active, AlertStatus::Acknowledged, AlertStatus::Resolved] {
        assert_eq!(alert_status_from_text(&alert_status_text(s)), Some(s));
    }
    for t in [
        DeviceType::Switch,
        DeviceType::AccessPoint,
        DeviceType::Router,
        DeviceType::Firewall,
        DeviceType::Server,
        DeviceType::Ups,
        DeviceType::Camera,
        DeviceType::WirelessLink,
    ] {
        assert_eq!(device_type_from_text(&device_type_text(t)), Some(t));
    }
    for s in [DeviceStatus::Active, DeviceStatus::Offline, DeviceStatus::Maintenance] {
        assert_eq!(device_status_from_text(&device_status_text(s)), Some(s));
    }
    assert_eq!(alert_status_from_text("active"), None);
    assert_eq!(device_type_from_text("switch"), None);
}

#[test]
fn api_error_constructors() {
    let e = ApiErrorResponse::not_found("Sede");
    assert_eq!(e.error, "Sede not found");
    assert_eq!(e.details, None);
    assert_eq!(e.status_code(), 404);
    assert_eq!(ApiErrorResponse::bad_request("b").status_code(), 400);
    assert_eq!(ApiErrorResponse::new("n".to_string()).status_code(), 500);
    assert_eq!(ApiErrorResponse::bad_request("bad").error, "bad");
    let d = ApiErrorResponse::with_details("e".to_string(), "d".to_string());
    assert_eq!(d.details, Some("d".to_string()));
    assert_eq!(ApiErrorResponse::new("x".to_string()).error, "x");
}

#[test]
fn app_error_answers() {
    assert_eq!(AppError::NotFound("a".to_string()).status_code(), 404);
    assert_eq!(AppError::BadRequest("b".to_string()).status_code(), 400);
    assert_eq!(AppError::Internal("c".to_string()).status_code(), 500);
    assert_eq!(AppError::Unauthorized.status_code(), 401);
    assert_eq!(AppError::NotFound("a".to_string()).message(), "NotFound: a");
    assert_eq!(AppError::Unauthorized.response_message(), "Unauthorized");
    assert_eq!(AppError::BadRequest("b".to_string()).response_message(), "b");
}

#[test]
fn database_error_text() {
    let e = database_error(&DomainError::Internal("boom".to_string()));
    assert_eq!(e.error, "Database error: Internal: boom");
    let s: Result<u8, ApiErrorResponse> = stored(Err(DomainError::Concurrency));
    assert_eq!(s.unwrap_err().error, "Database error: Concurrency conflict");
    assert_eq!(stored(Ok::<u8, DomainError>(3)), Ok(3));
    assert_eq!(found(Some(4u8), "X"), Ok(4));
    assert_eq!(found(None::<u8>, "Device").unwrap_err().error, "Device not found");
}

#[test]
fn path_ids() {
    assert_eq!(parse_path_id(ID), Ok(ID_VALUE));
    assert_eq!(parse_path_id("nope").unwrap_err().error, "Invalid UUID format");
}

#[test]
fn listing_plans() {
    let q = |status: Option<&str>, device: Option<&str>, limit: Option<usize>| ListAlertsQuery {
        status: status.map(String::from),
        severity: None,
        device_id: device.map(String::from),
        limit,
    };
    assert_eq!(plan_alert_listing(&q(Some("Resolved"), Some(ID), None)), Ok(AlertQuery::ByStatus(AlertStatus::Resolved)));
    assert_eq!(plan_alert_listing(&q(Some("x"), None, None)).unwrap_err().error, "Invalid status");
    assert_eq!(
        plan_alert_listing(&q(None, Some(ID), None)),
        Ok(AlertQuery::ByDevice { device_id: ID_VALUE, limit: DEFAULT_ALERT_LIMIT })
    );
    assert_eq!(DEFAULT_ALERT_LIMIT, 100);
    assert_eq!(
        plan_alert_listing(&q(None, Some(ID), Some(5))),
        Ok(AlertQuery::ByDevice { device_id: ID_VALUE, limit: 5 })
    );
    assert_eq!(plan_alert_listing(&q(None, Some("z"), None)).unwrap_err().error, "Invalid device_id format");
    assert_eq!(plan_alert_listing(&q(None, None, None)), Ok(AlertQuery::Active));
}

#[test]
fn find_alert_by_identifier() {
    let a = alert(AlertSeverity::Low);
    let id = a.id;
    let b = alert(AlertSeverity::High);
    let found_alert = find_alert_by_id(vec![b.clone(), a], id).unwrap();
    assert_eq!(found_alert.id, id);
    assert_eq!(find_alert_by_id(vec![b], 1).unwrap_err().error, "Alert not found");
}

#[test]
fn alert_requests() {
    let req = |t: &str, s: &str, d: Option<&str>| CreateAlertRequest {
        alert_type: t.to_string(),
        severity: s.to_string(),
        device_id: d.map(String::from),
        message: "msg".to_string(),
        details: Some("det".to_string()),
    };
    assert_eq!(alert_from_request(req("X", "Low", None)).unwrap_err().error, "Invalid alert_type");
    assert_eq!(alert_from_request(req("Intrusion", "x", None)).unwrap_err().error, "Invalid severity");
    assert_eq!(
        alert_from_request(req("Intrusion", "Low", Some("bad"))).unwrap_err().error,
        "Invalid device_id format"
    );
    let a = alert_from_request(req("Intrusion", "Low", Some(ID))).unwrap();
    assert_eq!(a.alert_type, AlertType::Intrusion);
    assert_eq!(a.severity, AlertSeverity::Low);
    assert_eq!(a.device_id, Some(ID_VALUE));
    assert_eq!(a.message, "msg");
    assert_eq!(a.status, AlertStatus::Active);
    let resp = AlertResponse::from_alert(a.clone());
    assert_eq!(resp.alert_type, "Intrusion");
    assert_eq!(resp.severity, "Low");
    assert_eq!(resp.status, "Active");
    assert_eq!(resp.device_id, Some(ID.to_string()));
    let list = AlertListResponse::from_alerts(vec![a.clone(), a]);
    assert_eq!(list.total, 2);
}

#[test]
fn acknowledgement_identifiers() {
    let p = AcknowledgeAlertRequest { user_id: ID.to_string() };
    assert_eq!(acknowledgement_ids(ID, &p), Ok((ID_VALUE, ID_VALUE)));
    assert_eq!(acknowledgement_ids("x", &p).unwrap_err().error, "Invalid UUID format");
    let bad = AcknowledgeAlertRequest { user_id: "y".to_string() };
    assert_eq!(acknowledgement_ids(ID, &bad).unwrap_err().error, "Invalid user_id format");
}

#[test]
fn stats_count_active_by_severity() {
    let active = vec![
        alert(AlertSeverity::Critical),
        alert(AlertSeverity::Critical),
        alert(AlertSeverity::Low),
        alert(AlertSeverity::Medium),
    ];
    let s = alert_stats(&active, &vec![alert(AlertSeverity::High)], &Vec::new());
    assert_eq!(s.total_active, 4);
    assert_eq!(s.total_acknowledged, 1);
    assert_eq!(s.total_resolved, 0);
    assert_eq!((s.critical, s.high, s.medium, s.low), (2, 0, 1, 1));
}

#[test]
fn device_requests_and_updates() {
    let req = |t: &str, s: &str| CreateDeviceRequest {
        hostname: "sw".to_string(),
        ip_address: "10.0.0.1".to_string(),
        device_type: t.to_string(),
        sede_id: s.to_string(),
    };
    assert_eq!(device_from_request(req("Hub", ID)).unwrap_err().error, "Invalid device_type");
    assert_eq!(device_from_request(req("Switch", "x")).unwrap_err().error, "Invalid sede_id format");
    let d = device_from_request(req("Switch", ID)).unwrap();
    assert_eq!(d.status, DeviceStatus::Offline);
    assert_eq!(d.sede_id, ID_VALUE);
    let upd = UpdateDeviceRequest {
        hostname: Some("sw2".to_string()),
        ip_address: None,
        device_type: Some("Router".to_string()),
        status: Some("Active".to_string()),
    };
    let u = apply_device_update(d.clone(), upd).unwrap();
    assert_eq!(u.hostname, "sw2");
    assert_eq!(u.ip_address, "10.0.0.1");
    assert_eq!(u.device_type, DeviceType::Router);
    assert_eq!(u.status, DeviceStatus::Active);
    assert_eq!(u.id, d.id);
    let bad = UpdateDeviceRequest { hostname: None, ip_address: None, device_type: None, status: Some("On".to_string()) };
    assert_eq!(apply_device_update(d.clone(), bad).unwrap_err().error, "Invalid status");
    let resp = DeviceResponse::from_device(u);
    assert_eq!(resp.device_type, "Router");
    assert_eq!(resp.status, "Active");
    assert_eq!(resp.sede_id, ID);
}

#[test]
fn sede_requests_and_updates() {
    let s = sede_from_request(CreateSedeRequest {
        nombre: "Central".to_string(),
        ubicacion: "Trinidad".to_string(),
        secretaria: "TI".to_string(),
    });
    let u = apply_sede_update(s.clone(), UpdateSedeRequest { nombre: None, ubicacion: Some("Riberalta".to_string()), secretaria: None });
    assert_eq!(u.nombre, "Central");
    assert_eq!(u.ubicacion, "Riberalta");
    assert_eq!(u.id, s.id);
    let r = SedeResponse::from_sede(u);
    assert_eq!(r.nombre, "Central");
    let _ = Sede::new("a".to_string(), "b".to_string(), "c".to_string());
    let _ = Device::new("h".to_string(), "i".to_string(), DeviceType::Ups, 1);
}
