use monitoreo::dto::{
    AcknowledgeAlertRequest, CreateAlertRequest, CreateDeviceRequest, CreateSedeRequest,
    ListAlertsQuery, UpdateDeviceRequest, UpdateSedeRequest,
};
use monitoreo::entities::{Alert, AlertStatus, Device, DeviceStatus, Sede};
use monitoreo::errors::DomainError;
use monitoreo::handlers::{
    acknowledge_alert, create_alert, create_device, create_sede, delete_device, get_alert,
    get_alert_stats, get_device, get_sede, list_alerts, list_devices, list_sedes, resolve_alert,
    update_device, update_sede,
};
use monitoreo::ports::{AlertRepository, AlertStore, DeviceRepository, DeviceStore, SedeRepository, SedeStore};
use std::sync::Mutex;

const SEDE: &str = "67e55044-10b1-426f-9247-bb680e5fe0c8";

#[derive(Default)]
struct Store {
    alerts: Mutex<Vec<Alert>>,
    devices: Mutex<Vec<Device>>,
    sedes: Mutex<Vec<Sede>>,
    device_saves: Mutex<usize>,
    broken: bool,
}

impl Store {
    fn check(&self) -> Result<(), DomainError> {
        if self.broken { Err(DomainError::Internal("offline".to_string())) } else { Ok(()) }
    }
}

impl AlertRepository for Store {
    // These stores make no claim about what they answer.
    fn answers_save(&self, _alert: Alert, _r: Result<Alert, DomainError>) -> bool {
        true
    }
    fn answers_find_active(&self, _r: Result<Vec<Alert>, DomainError>) -> bool {
        true
    }
    fn answers_acknowledge(&self, _id: u128, _user_id: u128, _r: Result<(), DomainError>) -> bool {
        true
    }
    fn answers_resolve(&self, _id: u128, _r: Result<(), DomainError>) -> bool {
        true
    }
    fn answers_find_by_device(&self, _device_id: u128, _limit: usize, _r: Result<Vec<Alert>, DomainError>) -> bool {
        true
    }
    fn answers_find_by_status(&self, _status: AlertStatus, _r: Result<Vec<Alert>, DomainError>) -> bool {
        true
    }
    fn save(&self, alert: &Alert) -> Result<Alert, DomainError> {
        self.check()?;
        self.alerts.lock().unwrap().push(alert.clone());
        Ok(alert.clone())
    }
    fn find_active(&self) -> Result<Vec<Alert>, DomainError> {
        self.find_by_status(AlertStatus::Active)
    }
    fn acknowledge(&self, id: u128, user_id: u128) -> Result<(), DomainError> {
        self.check()?;
        for a in self.alerts.lock().unwrap().iter_mut() {
            if a.id == id {
                a.acknowledge(user_id);
            }
        }
        Ok(())
    }
    fn resolve(&self, id: u128) -> Result<(), DomainError> {
        self.check()?;
        for a in self.alerts.lock().unwrap().iter_mut() {
            if a.id == id {
                a.resolve();
            }
        }
        Ok(())
    }
    fn find_by_device(&self, device_id: u128, limit: usize) -> Result<Vec<Alert>, DomainError> {
        self.check()?;
        Ok(self.alerts.lock().unwrap().iter().filter(|a| a.device_id == Some(device_id)).take(limit).cloned().collect())
    }
    fn find_by_status(&self, status: AlertStatus) -> Result<Vec<Alert>, DomainError> {
        self.check()?;
        Ok(self.alerts.lock().unwrap().iter().filter(|a| a.status == status).cloned().collect())
    }
}

impl DeviceRepository for Store {
    // These stores make no claim about what they answer.
    fn answers_find_by_id(&self, _id: u128, _r: Result<Option<Device>, DomainError>) -> bool {
        true
    }
    fn answers_save(&self, _device: Device, _r: Result<Device, DomainError>) -> bool {
        true
    }
    fn answers_soft_delete(&self, _id: u128, _r: Result<(), DomainError>) -> bool {
        true
    }
    fn answers_list(&self, _r: Result<Vec<Device>, DomainError>) -> bool {
        true
    }
    fn find_by_id(&self, id: u128) -> Result<Option<Device>, DomainError> {
        self.check()?;
        Ok(self.devices.lock().unwrap().iter().find(|d| d.id == id).cloned())
    }
    fn find_by_sede(&self, sede_id: u128) -> Result<Vec<Device>, DomainError> {
        Ok(self.devices.lock().unwrap().iter().filter(|d| d.sede_id == sede_id).cloned().collect())
    }
    fn find_by_type(&self, _device_type: &str) -> Result<Vec<Device>, DomainError> {
        Ok(Vec::new())
    }
    fn save(&self, device: &Device) -> Result<Device, DomainError> {
        *self.device_saves.lock().unwrap() += 1;
        self.check()?;
        let mut all = self.devices.lock().unwrap();
        all.retain(|d| d.id != device.id);
        all.push(device.clone());
        Ok(device.clone())
    }
    fn update_status(&self, _id: u128, _status: DeviceStatus) -> Result<(), DomainError> {
        Ok(())
    }
    fn soft_delete(&self, id: u128) -> Result<(), DomainError> {
        self.check()?;
        for d in self.devices.lock().unwrap().iter_mut() {
            if d.id == id {
                d.mark_deleted();
            }
        }
        Ok(())
    }
    fn list(&self) -> Result<Vec<Device>, DomainError> {
        self.check()?;
        Ok(self.devices.lock().unwrap().clone())
    }
}

impl SedeRepository for Store {
    // These stores make no claim about what they answer.
    fn answers_find_all(&self, _r: Result<Vec<Sede>, DomainError>) -> bool {
        true
    }
    fn answers_find_by_id(&self, _id: u128, _r: Result<Option<Sede>, DomainError>) -> bool {
        true
    }
    fn answers_save(&self, _sede: Sede, _r: Result<Sede, DomainError>) -> bool {
        true
    }
    fn find_all(&self) -> Result<Vec<Sede>, DomainError> {
        self.check()?;
        Ok(self.sedes.lock().unwrap().clone())
    }
    fn find_by_id(&self, id: u128) -> Result<Option<Sede>, DomainError> {
        self.check()?;
        Ok(self.sedes.lock().unwrap().iter().find(|s| s.id == id).cloned())
    }
    fn save(&self, sede: &Sede) -> Result<Sede, DomainError> {
        self.check()?;
        let mut all = self.sedes.lock().unwrap();
        all.retain(|s| s.id != sede.id);
        all.push(sede.clone());
        Ok(sede.clone())
    }
    fn delete(&self, _id: u128) -> Result<(), DomainError> {
        Ok(())
    }
}

fn alert_request(kind: &str) -> CreateAlertRequest {
    CreateAlertRequest {
        alert_type: kind.to_string(),
        severity: "High".to_string(),
        device_id: Some(SEDE.to_string()),
        message: "link down".to_string(),
        details: None,
    }
}

#[test]
fn alert_handlers_round_trip() {
    let store = Store::default();
    let mut alerts = AlertStore::new(&store);
    let created = create_alert(&mut alerts, alert_request("DeviceOffline")).unwrap();
    assert_eq!(created.alert_type, "DeviceOffline");
    assert_eq!(created.status, "Active");
    let got = get_alert(&mut alerts, &created.id).unwrap();
    assert_eq!(got.id, created.id);
    let all = list_alerts(&mut alerts, &ListAlertsQuery { status: None, severity: None, device_id: None, limit: None }).unwrap();
    assert_eq!(all.total, 1);
    let by_device = list_alerts(&mut alerts, &ListAlertsQuery { status: None, severity: None, device_id: Some(SEDE.to_string()), limit: Some(0) }).unwrap();
    assert_eq!(by_device.total, 0);
    let ack = acknowledge_alert(&mut alerts, &created.id, &AcknowledgeAlertRequest { user_id: SEDE.to_string() }).unwrap();
    assert_eq!(ack.message, "Alert acknowledged successfully");
    assert_eq!(ack.alert_id, created.id);
    assert_eq!(get_alert(&mut alerts, &created.id).unwrap().status, "Acknowledged");
    let missing = get_alert(&mut alerts, SEDE).unwrap_err();
    assert_eq!((missing.error.as_str(), missing.status), ("Alert not found", 404));
    let stats = get_alert_stats(&mut alerts).unwrap();
    assert_eq!((stats.total_active, stats.total_acknowledged, stats.total_resolved), (0, 1, 0));
    let res = resolve_alert(&mut alerts, &created.id).unwrap();
    assert_eq!(res.message, "Alert resolved successfully");
    let resolved = list_alerts(&mut alerts, &ListAlertsQuery { status: Some("Resolved".to_string()), severity: None, device_id: None, limit: None }).unwrap();
    assert_eq!(resolved.total, 1);
    assert_eq!(resolved.alerts[0].status, "Resolved");
}

#[test]
fn alert_handlers_refuse_bad_input_and_report_the_store() {
    let store = Store::default();
    let mut alerts = AlertStore::new(&store);
    assert_eq!(create_alert(&mut alerts, alert_request("Nope")).unwrap_err().error, "Invalid alert_type");
    assert!(store.alerts.lock().unwrap().is_empty());
    assert_eq!(get_alert(&mut alerts, "x").unwrap_err().error, "Invalid UUID format");
    assert_eq!(resolve_alert(&mut alerts, "x").unwrap_err().error, "Invalid UUID format");
    let broken = Store { broken: true, ..Store::default() };
    assert_eq!(
        create_alert(&mut AlertStore::new(&broken), alert_request("Intrusion")).unwrap_err().error,
        "Database error: Internal: offline"
    );
    let failure = get_alert_stats(&mut AlertStore::new(&broken)).unwrap_err();
    assert_eq!((failure.error.as_str(), failure.status), ("Database error: Internal: offline", 500));
}

#[test]
fn device_handlers() {
    let store = Store::default();
    let mut devices = DeviceStore::new(&store);
    let req = CreateDeviceRequest {
        hostname: "fw-1".to_string(),
        ip_address: "10.0.0.9".to_string(),
        device_type: "Firewall".to_string(),
        sede_id: SEDE.to_string(),
    };
    let created = create_device(&mut devices, req).unwrap();
    assert_eq!(created.status, "Offline");
    assert_eq!(created.sede_id, SEDE);
    assert_eq!(list_devices(&mut devices).unwrap().len(), 1);
    let upd = UpdateDeviceRequest { hostname: None, ip_address: None, device_type: None, status: Some("Active".to_string()) };
    let updated = update_device(&mut devices, &created.id, upd).unwrap();
    assert_eq!(updated.status, "Active");
    assert_eq!(get_device(&mut devices, &created.id).unwrap().status, "Active");
    let missing = get_device(&mut devices, SEDE).unwrap_err();
    assert_eq!((missing.error.as_str(), missing.status), ("Device not found", 404));
    assert_eq!(get_device(&mut devices, "bad").unwrap_err().status, 400);
    let bad = UpdateDeviceRequest { hostname: None, ip_address: None, device_type: Some("Hub".to_string()), status: None };
    let saves_before = *store.device_saves.lock().unwrap();
    assert_eq!(update_device(&mut devices, &created.id, bad).unwrap_err().error, "Invalid device_type");
    let bad_status = UpdateDeviceRequest { hostname: Some("fw-2".to_string()), ip_address: None, device_type: None, status: Some("Gone".to_string()) };
    assert_eq!(update_device(&mut devices, &created.id, bad_status).unwrap_err().error, "Invalid status");
    assert_eq!(*store.device_saves.lock().unwrap(), saves_before);
    assert_eq!(get_device(&mut devices, &created.id).unwrap().hostname, "fw-1");
    assert_eq!(delete_device(&mut devices, &created.id).unwrap().message, "Device deleted");
    assert_eq!(delete_device(&mut devices, "nope").unwrap_err().error, "Invalid UUID format");
    // Deletion is soft: the device stays in the store, marked deleted, and nothing was saved.
    assert_eq!(*store.device_saves.lock().unwrap(), saves_before);
    let kept = store.devices.lock().unwrap();
    assert_eq!(kept.len(), 1);
    assert!(kept[0].deleted_at.is_some());
}

#[test]
fn sede_handlers() {
    let store = Store::default();
    let mut sedes = SedeStore::new(&store);
    let created = create_sede(&mut sedes, CreateSedeRequest {
        nombre: "Central".to_string(),
        ubicacion: "Trinidad".to_string(),
        secretaria: "TI".to_string(),
    }).unwrap();
    assert_eq!(list_sedes(&mut sedes).unwrap().len(), 1);
    let updated = update_sede(&mut sedes, &created.id, UpdateSedeRequest { nombre: Some("Norte".to_string()), ubicacion: None, secretaria: None }).unwrap();
    assert_eq!(updated.nombre, "Norte");
    assert_eq!(updated.ubicacion, "Trinidad");
    assert_eq!(get_sede(&mut sedes, &created.id).unwrap().nombre, "Norte");
    assert_eq!(get_sede(&mut sedes, SEDE).unwrap_err().error, "Sede not found");
    assert_eq!(update_sede(&mut sedes, "?", UpdateSedeRequest { nombre: None, ubicacion: None, secretaria: None }).unwrap_err().error, "Invalid UUID format");
}
