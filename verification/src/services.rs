//! Application services: they build entities, hand them to a store and
//! report what the store answered. Each service keeps, as ghost state, the
//! calls it has made on its store, so that an operation states which calls
//! it makes.

use vstd::prelude::*;
use crate::detector::{AlertDetector, offline_details, offline_message, raised_about};
use crate::entities::{Alert, AlertSeverity, AlertStatus, AlertType, Device, DeviceStatus, Sede, raised_with};
use crate::errors::DomainError;
use crate::ports::{AlertCall, AlertRepository, SedeCall, SedeRepository};

verus! {

/// What an operation answers once its store has been asked to keep `item`:
/// `item` itself when the store succeeded, the store's error otherwise.
pub fn after_save<T, S>(item: T, outcome: Result<S, DomainError>) -> (r: Result<T, DomainError>)
    ensures
        match outcome {
            Ok(_) => r == Ok::<T, DomainError>(item),
            Err(e) => r == Err::<T, DomainError>(e),
        },
{
    match outcome {
        Ok(_) => Ok(item),
        Err(e) => Err(e),
    }
}

/// What an operation answers once the store answered `saved` to a save of
/// `item`: `item` itself, or the store's error.
pub open spec fn kept<T, S>(item: T, saved: Result<S, DomainError>) -> Result<T, DomainError> {
    match saved {
        Ok(_) => Ok(item),
        Err(e) => Err(e),
    }
}

/// Alert operations over a store of alerts.
pub struct AlertService<R: AlertRepository> {
    repository: R,
    calls: Ghost<Seq<AlertCall>>,
}

impl<R: AlertRepository> AlertService<R> {
    /// The store behind this service.
    pub closed spec fn store(&self) -> R {
        self.repository
    }

    /// The calls this service has made on its store, oldest first.
    pub closed spec fn calls(&self) -> Seq<AlertCall> {
        self.calls@
    }

    /// A service over `repository`, with no call made yet.
    pub fn new(repository: R) -> (s: Self)
        ensures
            s.store() == repository,
            s.calls() == Seq::<AlertCall>::empty(),
    {
        AlertService { repository, calls: Ghost(Seq::empty()) }
    }

    /// Raises a new active alert and hands it to the store to save. The
    /// alert is answered when the store accepts it, the store's error when
    /// it does not. That one save is the only call made on the store.
    pub fn create_alert(
        &mut self,
        alert_type: AlertType,
        severity: AlertSeverity,
        device_id: Option<u128>,
        message: String,
        details: Option<String>,
    ) -> (r: Result<Alert, DomainError>)
        ensures
            final(self).store() == old(self).store(),
            exists|a: Alert, saved: Result<Alert, DomainError>|
                {
                    &&& #[trigger] old(self).store().answers_save(a, saved)
                    &&& final(self).calls() == old(self).calls().push(AlertCall::Save(a))
                    &&& raised_with(a, alert_type, severity, device_id, message, details)
                    &&& r == kept(a, saved)
                },
    {
        let alert = Alert::new(alert_type, severity, device_id, message, details);
        let outcome = self.repository.save(&alert);
        proof {
            self.calls@ = self.calls@.push(AlertCall::Save(alert));
        }
        assert(old(self).store().answers_save(alert, outcome));
        after_save(alert, outcome)
    }

    /// The active alerts, as the store answers them.
    pub fn get_active_alerts(&mut self) -> (r: Result<Vec<Alert>, DomainError>)
        ensures
            final(self).store() == old(self).store(),
            final(self).calls() == old(self).calls().push(AlertCall::FindActive),
            old(self).store().answers_find_active(r),
    {
        let r = self.repository.find_active();
        proof {
            self.calls@ = self.calls@.push(AlertCall::FindActive);
        }
        r
    }

    /// Asks the store to record that `user_id` acknowledged alert
    /// `alert_id`, and answers what it answered.
    pub fn acknowledge_alert(&mut self, alert_id: u128, user_id: u128) -> (r: Result<(), DomainError>)
        ensures
            final(self).store() == old(self).store(),
            final(self).calls() == old(self).calls().push(AlertCall::Acknowledge(alert_id, user_id)),
            old(self).store().answers_acknowledge(alert_id, user_id, r),
    {
        let r = self.repository.acknowledge(alert_id, user_id);
        proof {
            self.calls@ = self.calls@.push(AlertCall::Acknowledge(alert_id, user_id));
        }
        r
    }

    /// Asks the store to record that alert `alert_id` is resolved, and
    /// answers what it answered.
    pub fn resolve_alert(&mut self, alert_id: u128) -> (r: Result<(), DomainError>)
        ensures
            final(self).store() == old(self).store(),
            final(self).calls() == old(self).calls().push(AlertCall::Resolve(alert_id)),
            old(self).store().answers_resolve(alert_id, r),
    {
        let r = self.repository.resolve(alert_id);
        proof {
            self.calls@ = self.calls@.push(AlertCall::Resolve(alert_id));
        }
        r
    }

    /// At most `limit` alerts of device `device_id`, as the store answers them.
    pub fn get_alerts_by_device(&mut self, device_id: u128, limit: usize) -> (r: Result<
        Vec<Alert>,
        DomainError,
    >)
        ensures
            final(self).store() == old(self).store(),
            final(self).calls() == old(self).calls().push(AlertCall::FindByDevice(device_id, limit)),
            old(self).store().answers_find_by_device(device_id, limit, r),
    {
        let r = self.repository.find_by_device(device_id, limit);
        proof {
            self.calls@ = self.calls@.push(AlertCall::FindByDevice(device_id, limit));
        }
        r
    }

    /// The alerts in status `status`, as the store answers them.
    pub fn get_alerts_by_status(&mut self, status: AlertStatus) -> (r: Result<Vec<Alert>, DomainError>)
        ensures
            final(self).store() == old(self).store(),
            final(self).calls() == old(self).calls().push(AlertCall::FindByStatus(status)),
            old(self).store().answers_find_by_status(status, r),
    {
        let r = self.repository.find_by_status(status);
        proof {
            self.calls@ = self.calls@.push(AlertCall::FindByStatus(status));
        }
        r
    }
}

/// Alert operations that also raise alerts from observations.
pub struct AlertServiceWithDetector<R: AlertRepository> {
    inner: AlertService<R>,
    detector: AlertDetector,
}

impl<R: AlertRepository> AlertServiceWithDetector<R> {
    /// The rules alerts are raised by.
    pub closed spec fn rules(&self) -> AlertDetector {
        self.detector
    }

    /// The store behind this service.
    pub closed spec fn store(&self) -> R {
        self.inner.repository
    }

    /// The calls this service has made on its store, oldest first.
    pub closed spec fn calls(&self) -> Seq<AlertCall> {
        self.inner.calls@
    }

    /// A service over `repository` raising alerts by `detector`, with no
    /// call made yet.
    pub fn new(repository: R, detector: AlertDetector) -> (s: Self)
        ensures
            s.rules() == detector,
            s.store() == repository,
            s.calls() == Seq::<AlertCall>::empty(),
    {
        AlertServiceWithDetector { inner: AlertService::new(repository), detector }
    }

    /// Hands `alert` to the store to save; `alert` is answered when the
    /// store accepts it, the store's error when it does not. That one save
    /// is the only call made on the store.
    pub fn create_alert(&mut self, alert: Alert) -> (r: Result<Alert, DomainError>)
        ensures
            final(self).store() == old(self).store(),
            final(self).rules() == old(self).rules(),
            final(self).calls() == old(self).calls().push(AlertCall::Save(alert)),
            exists|saved: Result<Alert, DomainError>|
                #[trigger] old(self).store().answers_save(alert, saved) && r == kept(alert, saved),
    {
        let outcome = self.inner.repository.save(&alert);
        proof {
            self.inner.calls@ = self.inner.calls@.push(AlertCall::Save(alert));
        }
        assert(old(self).store().answers_save(alert, outcome));
        after_save(alert, outcome)
    }

    /// The active alerts, as the store answers them.
    pub fn get_active_alerts(&mut self) -> (r: Result<Vec<Alert>, DomainError>)
        ensures
            final(self).store() == old(self).store(),
            final(self).rules() == old(self).rules(),
            final(self).calls() == old(self).calls().push(AlertCall::FindActive),
            old(self).store().answers_find_active(r),
    {
        self.inner.get_active_alerts()
    }

    /// Asks the store to record that `user_id` acknowledged alert
    /// `alert_id`, and answers what it answered.
    pub fn acknowledge_alert(&mut self, alert_id: u128, user_id: u128) -> (r: Result<(), DomainError>)
        ensures
            final(self).store() == old(self).store(),
            final(self).rules() == old(self).rules(),
            final(self).calls() == old(self).calls().push(AlertCall::Acknowledge(alert_id, user_id)),
            old(self).store().answers_acknowledge(alert_id, user_id, r),
    {
        self.inner.acknowledge_alert(alert_id, user_id)
    }

    /// Asks the store to record that alert `alert_id` is resolved, and
    /// answers what it answered.
    pub fn resolve_alert(&mut self, alert_id: u128) -> (r: Result<(), DomainError>)
        ensures
            final(self).store() == old(self).store(),
            final(self).rules() == old(self).rules(),
            final(self).calls() == old(self).calls().push(AlertCall::Resolve(alert_id)),
            old(self).store().answers_resolve(alert_id, r),
    {
        self.inner.resolve_alert(alert_id)
    }

    /// Raises an offline alert when the rules call `device` offline and hands
    /// it to the store to save: `Ok(None)` when they do not, and then no call
    /// is made on the store; the saved alert, or the store's error, when they
    /// do, and then that one save is the only call made.
    pub fn detect_and_create_offline_alert(&mut self, device: &Device, last_seen_secs_ago: i64) -> (r:
        Result<Option<Alert>, DomainError>)
        ensures
            final(self).store() == old(self).store(),
            final(self).rules() == old(self).rules(),
            (last_seen_secs_ago <= old(self).rules().offline_threshold() || device.status
                == DeviceStatus::Offline) ==> r == Ok::<Option<Alert>, DomainError>(None)
                && final(self).calls() == old(self).calls(),
            (last_seen_secs_ago > old(self).rules().offline_threshold() && device.status
                != DeviceStatus::Offline) ==> exists|a: Alert, saved: Result<Alert, DomainError>|
                {
                    &&& #[trigger] old(self).store().answers_save(a, saved)
                    &&& final(self).calls() == old(self).calls().push(AlertCall::Save(a))
                    &&& raised_about(
                        a,
                        *device,
                        AlertType::DeviceOffline,
                        AlertSeverity::High,
                        offline_message(device.hostname@),
                        offline_details(last_seen_secs_ago),
                    )
                    &&& r == match saved {
                        Ok(_) => Ok::<Option<Alert>, DomainError>(Some(a)),
                        Err(e) => Err::<Option<Alert>, DomainError>(e),
                    }
                },
    {
        match self.detector.check_device_offline(device, last_seen_secs_ago) {
            Some(alert) => {
                let outcome = self.inner.repository.save(&alert);
                proof {
                    self.inner.calls@ = self.inner.calls@.push(AlertCall::Save(alert));
                }
                assert(old(self).store().answers_save(alert, outcome));
                match after_save(alert, outcome) {
                    Ok(a) => Ok(Some(a)),
                    Err(e) => Err(e),
                }
            },
            None => Ok(None),
        }
    }
}

/// Site operations over a store of sites.
pub struct SedeService<R: SedeRepository> {
    repository: R,
    calls: Ghost<Seq<SedeCall>>,
}

impl<R: SedeRepository> SedeService<R> {
    /// The store behind this service.
    pub closed spec fn store(&self) -> R {
        self.repository
    }

    /// The calls this service has made on its store, oldest first.
    pub closed spec fn calls(&self) -> Seq<SedeCall> {
        self.calls@
    }

    /// A service over `repository`, with no call made yet.
    pub fn new(repository: R) -> (s: Self)
        ensures
            s.store() == repository,
            s.calls() == Seq::<SedeCall>::empty(),
    {
        SedeService { repository, calls: Ghost(Seq::empty()) }
    }

    /// Every site, as the store answers them.
    pub fn get_all_sedes(&mut self) -> (r: Result<Vec<Sede>, DomainError>)
        ensures
            final(self).store() == old(self).store(),
            final(self).calls() == old(self).calls().push(SedeCall::FindAll),
            old(self).store().answers_find_all(r),
    {
        let r = self.repository.find_all();
        proof {
            self.calls@ = self.calls@.push(SedeCall::FindAll);
        }
        r
    }

    /// The site with identifier `id`, as the store answers it.
    pub fn get_sede_by_id(&mut self, id: u128) -> (r: Result<Option<Sede>, DomainError>)
        ensures
            final(self).store() == old(self).store(),
            final(self).calls() == old(self).calls().push(SedeCall::FindById(id)),
            old(self).store().answers_find_by_id(id, r),
    {
        let r = self.repository.find_by_id(id);
        proof {
            self.calls@ = self.calls@.push(SedeCall::FindById(id));
        }
        r
    }

    /// Hands `sede` to the store to save, and answers what it answered.
    pub fn create_sede(&mut self, sede: &Sede) -> (r: Result<Sede, DomainError>)
        ensures
            final(self).store() == old(self).store(),
            final(self).calls() == old(self).calls().push(SedeCall::Save(*sede)),
            old(self).store().answers_save(*sede, r),
    {
        let r = self.repository.save(sede);
        proof {
            self.calls@ = self.calls@.push(SedeCall::Save(*sede));
        }
        r
    }
}

} // verus!
