use monitoreo::audit::{extract_resource, extract_resource_id, forwarded_client, request_audit, AuditLogBuilder};
use monitoreo::detector::{latency_anomaly, AlertDetector, DEFAULT_OFFLINE_THRESHOLD_SECS};
use monitoreo::entities::{
    Alert, AlertSeverity, AlertStatus, AlertType, AuditLog, Device, DeviceLink, DeviceStatus,
    DeviceType, IntrusionEvent, IntrusionStatus, LinkType, Role, Sede, Session, Token,
    TokenPurpose, User,
};
use monitoreo::errors::{AuthError, DomainError};
use monitoreo::ports::{AlertRepository, SedeRepository};
use monitoreo::services::{after_save, AlertService, AlertServiceWithDetector, SedeService};
use monitoreo::text::{i64_text, replace_text, split_text, trim_text, u128_text, u64_text};
use monitoreo::timestamp::Timestamp;
use std::sync::Mutex;

fn device(status: DeviceStatus) -> Device {
    let mut d = Device::new("core-sw".to_string(), "10.1.1.1".to_string(), DeviceType::Switch, 5);
    d.status = status;
    d
}

#[test]
fn alert_lifecycle_keeps_the_alert() {
    let mut a = Alert::new(AlertType::Intrusion, AlertSeverity::Critical, Some(3), "m".to_string(), None);
    let id = a.id;
    assert_eq!((a.id >> 76) & 0xf, 4);
    assert_eq!(a.status, AlertStatus::Active);
    a.acknowledge(9);
    assert_eq!(a.status, AlertStatus::Acknowledged);
    assert_eq!(a.acknowledged_by, Some(9));
    assert!(a.acknowledged_at.is_some());
    a.resolve();
    assert_eq!(a.status, AlertStatus::Resolved);
    assert_eq!(a.acknowledged_by, Some(9));
    assert_eq!(a.id, id);
    assert_eq!(a.message, "m");
}

#[test]
fn soft_deletion() {
    let mut d = device(DeviceStatus::Active);
    assert!(!d.is_deleted());
    d.mark_deleted();
    assert!(d.is_deleted());
    assert_eq!(d.hostname, "core-sw");
    let mut s = Sede::new("n".to_string(), "u".to_string(), "s".to_string());
    assert!(!s.is_deleted());
    s.mark_deleted();
    assert!(s.is_deleted());
    let mut u = User::new("a@b.co".to_string(), "h".to_string(), "Ana".to_string());
    assert!(u.is_active);
    assert!(!u.is_deleted());
    u.mark_deleted();
    assert!(u.is_deleted());
}

#[test]
fn device_status_update_marks_seen() {
    let mut d = device(DeviceStatus::Offline);
    assert!(d.last_seen_at.is_none());
    d.update_status(DeviceStatus::Maintenance);
    assert_eq!(d.status, DeviceStatus::Maintenance);
    assert!(d.last_seen_at.is_some());
}

#[test]
fn intrusion_lifecycle() {
    let mut e = IntrusionEvent::new("aa:bb".to_string(), None, Some(2));
    assert_eq!(e.status, IntrusionStatus::Detected);
    e.investigate();
    assert_eq!(e.status, IntrusionStatus::Investigating);
    e.resolve();
    assert_eq!(e.status, IntrusionStatus::Resolved);
    e.mark_false_positive();
    assert_eq!(e.status, IntrusionStatus::FalsePositive);
    assert_eq!(e.mac_address, "aa:bb");
}

#[test]
fn other_entities() {
    let l = DeviceLink::new(1, 2, LinkType::Fiber);
    assert_eq!(l.status, "active");
    assert_eq!((l.source_device_id, l.target_device_id), (1, 2));
    let r = Role::new("admin".to_string(), None);
    assert_eq!(r.name, "admin");
    let log = AuditLog::new(Some(1), "GET v1".to_string(), "v1".to_string(), None, None);
    assert_eq!(log.action, "GET v1");
}

#[test]
fn expiry() {
    let t0 = Timestamp::from_unix_nanos(1_000).unwrap();
    let t1 = Timestamp::from_unix_nanos(2_000).unwrap();
    let s = Session::new(1, "h".to_string(), t0);
    assert!(s.is_expired_at(t1));
    assert!(!s.is_expired_at(t0));
    let tok = Token::new(1, "h".to_string(), TokenPurpose::PasswordReset, t1);
    assert!(!tok.is_expired_at(t0));
    assert!(tok.is_expired_at(Timestamp::from_unix_nanos(2_001).unwrap()));
    assert!(Token::new(1, "h".to_string(), TokenPurpose::EmailVerification, t0).is_expired());
    assert!(Timestamp::from_unix_nanos(i128::MAX).is_none());
    assert_eq!(Timestamp::from_unix_nanos(0).unwrap().to_text(), "1970-01-01 0:00:00.0 +00:00:00");
}

#[test]
fn user_validation() {
    assert!(User::validate_email("a@b.c"));
    assert!(!User::validate_email("ab.c"));
    assert!(!User::validate_email("a@bc"));
    assert!(User::validate_name(" Ana "));
    assert!(!User::validate_name(" \t\n"));
    assert!(!User::validate_name(""));
}

#[test]
fn error_texts() {
    assert_eq!(DomainError::NotFound("x".to_string()).message(), "NotFound: x");
    assert_eq!(DomainError::Validation("v".to_string()).message(), "Validation: v");
    assert_eq!(DomainError::Concurrency.message(), "Concurrency conflict");
    assert_eq!(AuthError::TokenExpired.message(), "Token expired");
    assert_eq!(AuthError::Internal("i".to_string()).message(), "Internal: i");
}

#[test]
fn offline_detection() {
    let det = AlertDetector::default();
    assert_eq!(DEFAULT_OFFLINE_THRESHOLD_SECS, 300);
    assert!(det.check_device_offline(&device(DeviceStatus::Active), 300).is_none());
    assert!(det.check_device_offline(&device(DeviceStatus::Offline), 900).is_none());
    let d = device(DeviceStatus::Active);
    let a = det.check_device_offline(&d, 301).unwrap();
    assert_eq!(a.alert_type, AlertType::DeviceOffline);
    assert_eq!(a.severity, AlertSeverity::High);
    assert_eq!(a.device_id, Some(d.id));
    assert_eq!(a.message, "Device core-sw is offline");
    assert_eq!(a.details, Some("Last seen 301 seconds ago".to_string()));
    let strict = AlertDetector::new(-10);
    assert!(strict.check_device_offline(&d, -5).is_some());
    assert_eq!(strict.check_device_offline(&d, -5).unwrap().details, Some("Last seen -5 seconds ago".to_string()));
}

#[test]
fn intrusion_detection() {
    let det = AlertDetector::default();
    let d = device(DeviceStatus::Active);
    assert!(det.check_intrusion(&d, &[]).is_none());
    let macs = vec!["aa:bb".to_string(), "cc\"dd".to_string()];
    let a = det.check_intrusion(&d, &macs).unwrap();
    assert_eq!(a.alert_type, AlertType::Intrusion);
    assert_eq!(a.severity, AlertSeverity::Critical);
    assert_eq!(a.message, "Possible intrusion on device core-sw: 2 unknown MACs");
    assert_eq!(a.details, Some("Unknown MACs: [\"aa:bb\", \"cc\\\"dd\"]".to_string()));
}

struct MemoryAlerts {
    saved: Mutex<Vec<Alert>>,
    fail: bool,
}

impl AlertRepository for MemoryAlerts {
    // These stores make no claim about what they answer.
    fn answers_save(&self, _alert: Alert, _r: Result<Alert, DomainError>) -> bool {
        true
    }
    fn answers_find_active(&self, _r: Result<Vec<Alert>, DomainError>) -> bool {
        true
    }
    fn answers_acknowledge(&self, _id: u128, _user_id: u128, _r: Result<(), DomainError>) -> bool {
        true
    }
    fn answers_resolve(&self, _id: u128, _r: Result<(), DomainError>) -> bool {
        true
    }
    fn answers_find_by_device(&self, _device_id: u128, _limit: usize, _r: Result<Vec<Alert>, DomainError>) -> bool {
        true
    }
    fn answers_find_by_status(&self, _status: AlertStatus, _r: Result<Vec<Alert>, DomainError>) -> bool {
        true
    }
    fn save(&self, alert: &Alert) -> Result<Alert, DomainError> {
        if self.fail {
            return Err(DomainError::Internal("down".to_string()));
        }
        self.saved.lock().unwrap().push(alert.clone());
        Ok(alert.clone())
    }
    fn find_active(&self) -> Result<Vec<Alert>, DomainError> {
        Ok(self.saved.lock().unwrap().iter().filter(|a| a.status == AlertStatus::Active).cloned().collect())
    }
    fn acknowledge(&self, id: u128, user_id: u128) -> Result<(), DomainError> {
        for a in self.saved.lock().unwrap().iter_mut() {
            if a.id == id {
                a.acknowledge(user_id);
                return Ok(());
            }
        }
        Err(DomainError::NotFound("alert".to_string()))
    }
    fn resolve(&self, id: u128) -> Result<(), DomainError> {
        for a in self.saved.lock().unwrap().iter_mut() {
            if a.id == id {
                a.resolve();
                return Ok(());
            }
        }
        Err(DomainError::NotFound("alert".to_string()))
    }
    fn find_by_device(&self, device_id: u128, limit: usize) -> Result<Vec<Alert>, DomainError> {
        Ok(self.saved.lock().unwrap().iter().filter(|a| a.device_id == Some(device_id)).take(limit).cloned().collect())
    }
    fn find_by_status(&self, status: AlertStatus) -> Result<Vec<Alert>, DomainError> {
        Ok(self.saved.lock().unwrap().iter().filter(|a| a.status == status).cloned().collect())
    }
}

#[test]
fn alert_service_saves_what_it_raises() {
    let mut service = AlertService::new(MemoryAlerts { saved: Mutex::new(Vec::new()), fail: false });
    let a = service
        .create_alert(AlertType::HighTraffic, AlertSeverity::Low, Some(4), "t".to_string(), None)
        .unwrap();
    assert_eq!(a.alert_type, AlertType::HighTraffic);
    assert_eq!(service.get_active_alerts().unwrap().len(), 1);
    assert_eq!(service.get_alerts_by_device(4, 10).unwrap().len(), 1);
    service.acknowledge_alert(a.id, 8).unwrap();
    assert_eq!(service.get_alerts_by_status(AlertStatus::Acknowledged).unwrap().len(), 1);
    service.resolve_alert(a.id).unwrap();
    assert_eq!(service.get_alerts_by_status(AlertStatus::Resolved).unwrap().len(), 1);
    assert!(service.resolve_alert(1).is_err());
}

#[test]
fn failing_store_is_reported() {
    let mut service = AlertService::new(MemoryAlerts { saved: Mutex::new(Vec::new()), fail: true });
    let r = service.create_alert(AlertType::HighTraffic, AlertSeverity::Low, None, "t".to_string(), None);
    assert_eq!(r.unwrap_err(), DomainError::Internal("down".to_string()));
    let kept: Result<u8, DomainError> = after_save(1u8, Ok::<(), DomainError>(()));
    assert_eq!(kept, Ok(1));
}

#[test]
fn detector_service_saves_offline_alerts_only_when_raised() {
    let mut service = AlertServiceWithDetector::new(
        MemoryAlerts { saved: Mutex::new(Vec::new()), fail: false },
        AlertDetector::new(60),
    );
    let d = device(DeviceStatus::Active);
    assert_eq!(service.detect_and_create_offline_alert(&d, 30).unwrap().is_none(), true);
    assert_eq!(service.get_active_alerts().unwrap().len(), 0);
    let a = service.detect_and_create_offline_alert(&d, 61).unwrap().unwrap();
    assert_eq!(a.message, "Device core-sw is offline");
    assert_eq!(service.get_active_alerts().unwrap().len(), 1);
    let again = service.create_alert(a.clone()).unwrap();
    assert_eq!(again.id, a.id);
    service.acknowledge_alert(a.id, 1).unwrap();
    service.resolve_alert(a.id).unwrap();
}

struct MemorySedes(Mutex<Vec<Sede>>);

impl SedeRepository for MemorySedes {
    // These stores make no claim about what they answer.
    fn answers_find_all(&self, _r: Result<Vec<Sede>, DomainError>) -> bool {
        true
    }
    fn answers_find_by_id(&self, _id: u128, _r: Result<Option<Sede>, DomainError>) -> bool {
        true
    }
    fn answers_save(&self, _sede: Sede, _r: Result<Sede, DomainError>) -> bool {
        true
    }
    fn find_all(&self) -> Result<Vec<Sede>, DomainError> {
        Ok(self.0.lock().unwrap().clone())
    }
    fn find_by_id(&self, id: u128) -> Result<Option<Sede>, DomainError> {
        Ok(self.0.lock().unwrap().iter().find(|s| s.id == id).cloned())
    }
    fn save(&self, sede: &Sede) -> Result<Sede, DomainError> {
        self.0.lock().unwrap().push(sede.clone());
        Ok(sede.clone())
    }
    fn delete(&self, _id: u128) -> Result<(), DomainError> {
        Ok(())
    }
}

#[test]
fn sede_service_forwards_to_the_store() {
    let mut service = SedeService::new(MemorySedes(Mutex::new(Vec::new())));
    let s = Sede::new("n".to_string(), "u".to_string(), "x".to_string());
    service.create_sede(&s).unwrap();
    assert_eq!(service.get_all_sedes().unwrap().len(), 1);
    assert_eq!(service.get_sede_by_id(s.id).unwrap().unwrap().nombre, "n");
    assert!(service.get_sede_by_id(0).unwrap().is_none());
}

#[test]
fn request_paths() {
    assert_eq!(extract_resource("/api/v1/devices/7?x=1"), "devices");
    assert_eq!(extract_resource("/api/v1/sedes?limit=2"), "sedes");
    assert_eq!(extract_resource("/health?full=1"), "unknown");
    assert_eq!(extract_resource("x"), "unknown");
    assert_eq!(extract_resource("/api/alerts?status=Active"), "alerts");
    assert_eq!(extract_resource("/api/devices/3"), "devices");
    assert_eq!(extract_resource("/api/v1"), "v1");
    assert_eq!(extract_resource("/api/v2x/sedes"), "v2x");
    assert_eq!(extract_resource_id("/api/v1/devices/7"), Some("7".to_string()));
    assert_eq!(extract_resource_id("/api/v1/devices"), None);
    assert_eq!(forwarded_client(Some("  1.1.1.1,2.2.2.2")), Some("1.1.1.1".to_string()));
    assert_eq!(forwarded_client(None), None);
}

#[test]
fn request_audit_record() {
    let b = request_audit("GET", "/api/v1/alerts/9", 200, 15, None, Some("curl"), Some(3));
    assert_eq!(b.action, "GET alerts");
    assert_eq!(b.resource, "alerts");
    assert_eq!(b.details, Some("{\"method\":\"GET\",\"uri\":\"/api/v1/alerts/9\",\"status\":\"200\",\"duration_ms\":15}".to_string()));
    assert_eq!(b.ip_address, Some("unknown".to_string()));
    assert_eq!(b.user_agent, Some("curl".to_string()));
    assert_eq!(b.user_id, Some(3));
    assert_eq!(b.resource_id, Some("9".to_string()));
    let log = b.build();
    assert_eq!(log.resource, "alerts");
    let built = AuditLogBuilder::new("a".to_string(), "r".to_string())
        .user_id(1)
        .resource_id("x".to_string())
        .details("d".to_string())
        .ip_address("ip".to_string())
        .user_agent("ua".to_string())
        .build();
    assert_eq!(built.user_id, Some(1));
    assert_eq!(built.resource_id, Some("x".to_string()));
    assert_eq!(built.user_agent, Some("ua".to_string()));
}

#[test]
fn text_helpers() {
    assert_eq!(u64_text(0), "0");
    assert_eq!(u64_text(18446744073709551615), "18446744073709551615");
    assert_eq!(u128_text(1234567890123456789012345), "1234567890123456789012345");
    assert_eq!(i64_text(i64::MIN), "-9223372036854775808");
    assert_eq!(i64_text(-7), "-7");
    assert_eq!(trim_text("\u{3000} a b \n"), "a b");
    assert_eq!(split_text("a,,b", ','), vec!["a".to_string(), String::new(), "b".to_string()]);
    assert_eq!(split_text("", ','), vec![String::new()]);
    assert_eq!(replace_text("aaa", "aa", "b"), "ba");
}

#[test]
fn latency_rule() {
    assert!(!latency_anomaly(None));
    assert!(!latency_anomaly(Some(100)));
    assert!(latency_anomaly(Some(101)));
}
