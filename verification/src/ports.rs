//! The stores the services work against. An adapter (a database, a test
//! double) implements these; the library only calls them.
//!
//! The operations the library relies on come with a relation that the
//! adapter defines: `answers_<operation>` holds of the arguments an
//! operation was called with and of what the store answered. The library
//! states its own results over these relations, which ties each result to
//! the store call it came from and to what that call was given. What a store
//! keeps between calls is the adapter's affair and is not modelled.
//!
//! `AlertStore`, `DeviceStore` and `SedeStore` stand between an operation
//! and its store: they pass each call on and keep, as ghost state, the
//! sequence of calls made, so that an operation can state which calls it
//! makes (which writes, and which it does not make) and in what order.

use vstd::prelude::*;
use crate::entities::{
    Alert, AlertStatus, AuditLog, Device, DeviceStatus, IntrusionEvent, IntrusionStatus, Sede,
    Session, Token, User,
};
use crate::errors::DomainError;

verus! {

/// Where alerts are kept.
pub trait AlertRepository: Send + Sync {
    /// The store answered `r` to a save of `alert`.
    spec fn answers_save(&self, alert: Alert, r: Result<Alert, DomainError>) -> bool;

    /// The store answered `r` to a request for the active alerts.
    spec fn answers_find_active(&self, r: Result<Vec<Alert>, DomainError>) -> bool;

    /// The store answered `r` to a record that `user_id` acknowledged alert `id`.
    spec fn answers_acknowledge(&self, id: u128, user_id: u128, r: Result<(), DomainError>) -> bool;

    /// The store answered `r` to a record that alert `id` is resolved.
    spec fn answers_resolve(&self, id: u128, r: Result<(), DomainError>) -> bool;

    /// The store answered `r` to a request for at most `limit` alerts of
    /// device `device_id`.
    spec fn answers_find_by_device(
        &self,
        device_id: u128,
        limit: usize,
        r: Result<Vec<Alert>, DomainError>,
    ) -> bool;

    /// The store answered `r` to a request for the alerts in status `status`.
    spec fn answers_find_by_status(&self, status: AlertStatus, r: Result<Vec<Alert>, DomainError>) -> bool;

    fn save(&self, alert: &Alert) -> (r: Result<Alert, DomainError>)
        ensures
            self.answers_save(*alert, r),
    ;

    fn find_active(&self) -> (r: Result<Vec<Alert>, DomainError>)
        ensures
            self.answers_find_active(r),
    ;

    fn acknowledge(&self, id: u128, user_id: u128) -> (r: Result<(), DomainError>)
        ensures
            self.answers_acknowledge(id, user_id, r),
    ;

    fn resolve(&self, id: u128) -> (r: Result<(), DomainError>)
        ensures
            self.answers_resolve(id, r),
    ;

    fn find_by_device(&self, device_id: u128, limit: usize) -> (r: Result<Vec<Alert>, DomainError>)
        ensures
            self.answers_find_by_device(device_id, limit, r),
    ;

    fn find_by_status(&self, status: AlertStatus) -> (r: Result<Vec<Alert>, DomainError>)
        ensures
            self.answers_find_by_status(status, r),
    ;
}

/// Where the audit trail is kept.
pub trait AuditRepository: Send + Sync {
    fn log(&self, entry: &AuditLog) -> Result<AuditLog, DomainError>;

    fn find_by_resource(&self, resource: &str, limit: usize) -> Result<Vec<AuditLog>, DomainError>;

    fn find_by_user(&self, user_id: u128, limit: usize) -> Result<Vec<AuditLog>, DomainError>;
}

/// Where devices are kept.
pub trait DeviceRepository: Send + Sync {
    /// The store answered `r` to a request for the device `id`.
    spec fn answers_find_by_id(&self, id: u128, r: Result<Option<Device>, DomainError>) -> bool;

    /// The store answered `r` to a save of `device`.
    spec fn answers_save(&self, device: Device, r: Result<Device, DomainError>) -> bool;

    /// The store answered `r` to a soft deletion of the device `id`.
    spec fn answers_soft_delete(&self, id: u128, r: Result<(), DomainError>) -> bool;

    /// The store answered `r` to a request for every device.
    spec fn answers_list(&self, r: Result<Vec<Device>, DomainError>) -> bool;

    fn find_by_id(&self, id: u128) -> (r: Result<Option<Device>, DomainError>)
        ensures
            self.answers_find_by_id(id, r),
    ;

    fn find_by_sede(&self, sede_id: u128) -> Result<Vec<Device>, DomainError>;

    fn find_by_type(&self, device_type: &str) -> Result<Vec<Device>, DomainError>;

    fn save(&self, device: &Device) -> (r: Result<Device, DomainError>)
        ensures
            self.answers_save(*device, r),
    ;

    fn update_status(&self, id: u128, status: DeviceStatus) -> Result<(), DomainError>;

    fn soft_delete(&self, id: u128) -> (r: Result<(), DomainError>)
        ensures
            self.answers_soft_delete(id, r),
    ;

    fn list(&self) -> (r: Result<Vec<Device>, DomainError>)
        ensures
            self.answers_list(r),
    ;
}

/// Where intrusion events are kept.
pub trait IntrusionRepository: Send + Sync {
    fn save(&self, event: &IntrusionEvent) -> Result<IntrusionEvent, DomainError>;

    fn find_pending(&self) -> Result<Vec<IntrusionEvent>, DomainError>;

    fn update_status(&self, id: u128, status: IntrusionStatus) -> Result<(), DomainError>;

    fn find_by_status(&self, status: IntrusionStatus) -> Result<Vec<IntrusionEvent>, DomainError>;
}

/// Where sites are kept.
pub trait SedeRepository: Send + Sync {
    /// The store answered `r` to a request for every site.
    spec fn answers_find_all(&self, r: Result<Vec<Sede>, DomainError>) -> bool;

    /// The store answered `r` to a request for the site `id`.
    spec fn answers_find_by_id(&self, id: u128, r: Result<Option<Sede>, DomainError>) -> bool;

    /// The store answered `r` to a save of `sede`.
    spec fn answers_save(&self, sede: Sede, r: Result<Sede, DomainError>) -> bool;

    fn find_all(&self) -> (r: Result<Vec<Sede>, DomainError>)
        ensures
            self.answers_find_all(r),
    ;

    fn find_by_id(&self, id: u128) -> (r: Result<Option<Sede>, DomainError>)
        ensures
            self.answers_find_by_id(id, r),
    ;

    fn save(&self, sede: &Sede) -> (r: Result<Sede, DomainError>)
        ensures
            self.answers_save(*sede, r),
    ;

    fn delete(&self, id: u128) -> Result<(), DomainError>;
}

/// Where sessions are kept.
pub trait SessionRepository: Send + Sync {
    fn create(&self, session: &Session) -> Result<Session, DomainError>;

    fn find_by_token_hash(&self, token_hash: &str) -> Result<Option<Session>, DomainError>;

    fn delete_by_user_id(&self, user_id: u128) -> Result<(), DomainError>;

    fn delete_expired(&self) -> Result<u64, DomainError>;
}

/// Where one-time tokens are kept.
pub trait TokenRepository: Send + Sync {
    fn create(&self, token: &Token) -> Result<Token, DomainError>;

    fn find_by_hash(&self, hash: &str) -> Result<Option<Token>, DomainError>;

    fn delete_by_user_id(&self, user_id: u128) -> Result<(), DomainError>;

    fn delete_expired(&self) -> Result<u64, DomainError>;
}

/// Where users are kept.
pub trait UserRepository: Send + Sync {
    fn find_by_id(&self, id: u128) -> Result<Option<User>, DomainError>;

    fn find_by_email(&self, email: &str) -> Result<Option<User>, DomainError>;

    fn save(&self, user: &User) -> Result<User, DomainError>;

    fn soft_delete(&self, id: u128) -> Result<(), DomainError>;

    fn list(&self) -> Result<Vec<User>, DomainError>;
}

/// A call made on a store of alerts, with what it was given.
pub enum AlertCall {
    Save(Alert),
    FindActive,
    Acknowledge(u128, u128),
    Resolve(u128),
    FindByDevice(u128, usize),
    FindByStatus(AlertStatus),
}

/// A store of alerts, with the calls made on it through this value.
pub struct AlertStore<'a, R: AlertRepository + ?Sized> {
    repository: &'a R,
    calls: Ghost<Seq<AlertCall>>,
}

impl<'a, R: AlertRepository + ?Sized> AlertStore<'a, R> {
    /// The store the calls go to.
    pub closed spec fn repository(&self) -> &'a R {
        self.repository
    }

    /// The calls made so far, oldest first.
    pub closed spec fn calls(&self) -> Seq<AlertCall> {
        self.calls@
    }

    /// `repository`, with no call made yet.
    pub fn new(repository: &'a R) -> (s: Self)
        ensures
            s.repository() == repository,
            s.calls() == Seq::<AlertCall>::empty(),
    {
        AlertStore { repository, calls: Ghost(Seq::empty()) }
    }

    /// Asks the store to save `alert`.
    pub fn save(&mut self, alert: &Alert) -> (r: Result<Alert, DomainError>)
        ensures
            final(self).repository() == old(self).repository(),
            final(self).calls() == old(self).calls().push(AlertCall::Save(*alert)),
            old(self).repository().answers_save(*alert, r),
    {
        let r = self.repository.save(alert);
        proof {
            self.calls@ = self.calls@.push(AlertCall::Save(*alert));
        }
        r
    }

    /// Asks the store for the active alerts.
    pub fn find_active(&mut self) -> (r: Result<Vec<Alert>, DomainError>)
        ensures
            final(self).repository() == old(self).repository(),
            final(self).calls() == old(self).calls().push(AlertCall::FindActive),
            old(self).repository().answers_find_active(r),
    {
        let r = self.repository.find_active();
        proof {
            self.calls@ = self.calls@.push(AlertCall::FindActive);
        }
        r
    }

    /// Asks the store to record that `user_id` acknowledged alert `id`.
    pub fn acknowledge(&mut self, id: u128, user_id: u128) -> (r: Result<(), DomainError>)
        ensures
            final(self).repository() == old(self).repository(),
            final(self).calls() == old(self).calls().push(AlertCall::Acknowledge(id, user_id)),
            old(self).repository().answers_acknowledge(id, user_id, r),
    {
        let r = self.repository.acknowledge(id, user_id);
        proof {
            self.calls@ = self.calls@.push(AlertCall::Acknowledge(id, user_id));
        }
        r
    }

    /// Asks the store to record that alert `id` is resolved.
    pub fn resolve(&mut self, id: u128) -> (r: Result<(), DomainError>)
        ensures
            final(self).repository() == old(self).repository(),
            final(self).calls() == old(self).calls().push(AlertCall::Resolve(id)),
            old(self).repository().answers_resolve(id, r),
    {
        let r = self.repository.resolve(id);
        proof {
            self.calls@ = self.calls@.push(AlertCall::Resolve(id));
        }
        r
    }

    /// Asks the store for at most `limit` alerts of device `device_id`.
    pub fn find_by_device(&mut self, device_id: u128, limit: usize) -> (r: Result<Vec<Alert>, DomainError>)
        ensures
            final(self).repository() == old(self).repository(),
            final(self).calls() == old(self).calls().push(AlertCall::FindByDevice(device_id, limit)),
            old(self).repository().answers_find_by_device(device_id, limit, r),
    {
        let r = self.repository.find_by_device(device_id, limit);
        proof {
            self.calls@ = self.calls@.push(AlertCall::FindByDevice(device_id, limit));
        }
        r
    }

    /// Asks the store for the alerts in status `status`.
    pub fn find_by_status(&mut self, status: AlertStatus) -> (r: Result<Vec<Alert>, DomainError>)
        ensures
            final(self).repository() == old(self).repository(),
            final(self).calls() == old(self).calls().push(AlertCall::FindByStatus(status)),
            old(self).repository().answers_find_by_status(status, r),
    {
        let r = self.repository.find_by_status(status);
        proof {
            self.calls@ = self.calls@.push(AlertCall::FindByStatus(status));
        }
        r
    }
}

/// A call made on a store of devices, with what it was given.
pub enum DeviceCall {
    FindById(u128),
    Save(Device),
    SoftDelete(u128),
    List,
}

/// A store of devices, with the calls made on it through this value.
pub struct DeviceStore<'a, R: DeviceRepository + ?Sized> {
    repository: &'a R,
    calls: Ghost<Seq<DeviceCall>>,
}

impl<'a, R: DeviceRepository + ?Sized> DeviceStore<'a, R> {
    /// The store the calls go to.
    pub closed spec fn repository(&self) -> &'a R {
        self.repository
    }

    /// The calls made so far, oldest first.
    pub closed spec fn calls(&self) -> Seq<DeviceCall> {
        self.calls@
    }

    /// `repository`, with no call made yet.
    pub fn new(repository: &'a R) -> (s: Self)
        ensures
            s.repository() == repository,
            s.calls() == Seq::<DeviceCall>::empty(),
    {
        DeviceStore { repository, calls: Ghost(Seq::empty()) }
    }

    /// Asks the store for the device `id`.
    pub fn find_by_id(&mut self, id: u128) -> (r: Result<Option<Device>, DomainError>)
        ensures
            final(self).repository() == old(self).repository(),
            final(self).calls() == old(self).calls().push(DeviceCall::FindById(id)),
            old(self).repository().answers_find_by_id(id, r),
    {
        let r = self.repository.find_by_id(id);
        proof {
            self.calls@ = self.calls@.push(DeviceCall::FindById(id));
        }
        r
    }

    /// Asks the store to save `device`.
    pub fn save(&mut self, device: &Device) -> (r: Result<Device, DomainError>)
        ensures
            final(self).repository() == old(self).repository(),
            final(self).calls() == old(self).calls().push(DeviceCall::Save(*device)),
            old(self).repository().answers_save(*device, r),
    {
        let r = self.repository.save(device);
        proof {
            self.calls@ = self.calls@.push(DeviceCall::Save(*device));
        }
        r
    }

    /// Asks the store to soft-delete the device `id`.
    pub fn soft_delete(&mut self, id: u128) -> (r: Result<(), DomainError>)
        ensures
            final(self).repository() == old(self).repository(),
            final(self).calls() == old(self).calls().push(DeviceCall::SoftDelete(id)),
            old(self).repository().answers_soft_delete(id, r),
    {
        let r = self.repository.soft_delete(id);
        proof {
            self.calls@ = self.calls@.push(DeviceCall::SoftDelete(id));
        }
        r
    }

    /// Asks the store for every device.
    pub fn list(&mut self) -> (r: Result<Vec<Device>, DomainError>)
        ensures
            final(self).repository() == old(self).repository(),
            final(self).calls() == old(self).calls().push(DeviceCall::List),
            old(self).repository().answers_list(r),
    {
        let r = self.repository.list();
        proof {
            self.calls@ = self.calls@.push(DeviceCall::List);
        }
        r
    }
}

/// A call made on a store of sites, with what it was given.
pub enum SedeCall {
    FindAll,
    FindById(u128),
    Save(Sede),
}

/// A store of sites, with the calls made on it through this value.
pub struct SedeStore<'a, R: SedeRepository + ?Sized> {
    repository: &'a R,
    calls: Ghost<Seq<SedeCall>>,
}

impl<'a, R: SedeRepository + ?Sized> SedeStore<'a, R> {
    /// The store the calls go to.
    pub closed spec fn repository(&self) -> &'a R {
        self.repository
    }

    /// The calls made so far, oldest first.
    pub closed spec fn calls(&self) -> Seq<SedeCall> {
        self.calls@
    }

    /// `repository`, with no call made yet.
    pub fn new(repository: &'a R) -> (s: Self)
        ensures
            s.repository() == repository,
            s.calls() == Seq::<SedeCall>::empty(),
    {
        SedeStore { repository, calls: Ghost(Seq::empty()) }
    }

    /// Asks the store for every site.
    pub fn find_all(&mut self) -> (r: Result<Vec<Sede>, DomainError>)
        ensures
            final(self).repository() == old(self).repository(),
            final(self).calls() == old(self).calls().push(SedeCall::FindAll),
            old(self).repository().answers_find_all(r),
    {
        let r = self.repository.find_all();
        proof {
            self.calls@ = self.calls@.push(SedeCall::FindAll);
        }
        r
    }

    /// Asks the store for the site `id`.
    pub fn find_by_id(&mut self, id: u128) -> (r: Result<Option<Sede>, DomainError>)
        ensures
            final(self).repository() == old(self).repository(),
            final(self).calls() == old(self).calls().push(SedeCall::FindById(id)),
            old(self).repository().answers_find_by_id(id, r),
    {
        let r = self.repository.find_by_id(id);
        proof {
            self.calls@ = self.calls@.push(SedeCall::FindById(id));
        }
        r
    }

    /// Asks the store to save `sede`.
    pub fn save(&mut self, sede: &Sede) -> (r: Result<Sede, DomainError>)
        ensures
            final(self).repository() == old(self).repository(),
            final(self).calls() == old(self).calls().push(SedeCall::Save(*sede)),
            old(self).repository().answers_save(*sede, r),
    {
        let r = self.repository.save(sede);
        proof {
            self.calls@ = self.calls@.push(SedeCall::Save(*sede));
        }
        r
    }
}

} // verus!
