//! People and their accounts with services.

use crate::cache::records::{PersonRecord, ServiceAccountRecord, ServiceAccountRecordSet};
use crate::text::{chars_of, string_of};
use crate::{Resource, ResourceSet};
use vstd::prelude::*;
use vstd::std_specs::convert::FromSpecImpl;

verus! {

/// A person with the accounts under which the person is known.
#[derive(Clone, Debug, PartialEq)]
pub struct Person {
    pub _type: String,
    pub id: String,
    pub name: String,
    pub guest: bool,
    pub accounts: Vec<ServiceAccount>,
}

impl Resource for Person {
    type Id = String;

    fn id(&self) -> (id: &String)
        ensures
            *id == self.id,
    {
        &self.id
    }
}

impl Person {
    /// The record that stores the person under `checksum`; the accounts
    /// have records of their own.
    pub fn into_record(self, checksum: String) -> (record: PersonRecord)
        ensures
            record.id == self.id,
            record.checksum == checksum,
            record.name == self.name,
            record.guest == self.guest,
    {
        PersonRecord { checksum, id: self.id, name: self.name, guest: self.guest }
    }
}

/// The account that `record` stores.
pub open spec fn account_of(record: ServiceAccountRecord) -> ServiceAccount {
    ServiceAccount { id: record.id, name: record.name, username: record.username, url: record.url }
}

/// The accounts that `records` store, in their order.
pub open spec fn accounts_of(records: Seq<ServiceAccountRecord>) -> Seq<ServiceAccount> {
    Seq::new(records.len(), |i: int| account_of(records[i]))
}

/// The accounts that `records` store, in their order.
pub fn accounts_from(records: ServiceAccountRecordSet) -> (accounts: Vec<ServiceAccount>)
    ensures
        accounts@ == accounts_of(records.inner@),
{
    let ghost all = records.inner@;
    let mut accounts: Vec<ServiceAccount> = Vec::new();
    for record in iter: records.inner
        invariant
            iter.seq() == all,
            accounts@.len() == iter.index(),
            forall|i: int| 0 <= i < accounts@.len() ==> accounts@[i] == account_of(all[i]),
    {
        accounts.push(ServiceAccount::from(record));
    }
    assert(accounts@ =~= accounts_of(all));
    accounts
}

/// The person that `record` stores, with the accounts `accounts`.
pub fn from_record(record: PersonRecord, accounts: Vec<ServiceAccount>) -> (person: Person)
    ensures
        person._type@ == "person"@,
        person.id == record.id,
        person.name == record.name,
        person.guest == record.guest,
        person.accounts == accounts,
{
    Person {
        _type: string_of(&chars_of("person")),
        id: record.id,
        name: record.name,
        guest: record.guest,
        accounts,
    }
}

/// People, in their order.
#[derive(Clone, Debug)]
pub struct PersonSet {
    pub inner: Vec<Person>,
}

impl PersonSet {
    /// The set of `inner`, in its order.
    pub fn new(inner: Vec<Person>) -> (set: PersonSet)
        ensures
            set.inner == inner,
    {
        PersonSet { inner }
    }
}

impl ResourceSet for PersonSet {

}

impl IntoIterator for PersonSet {
    type Item = Person;

    type IntoIter = std::vec::IntoIter<Person>;

    /// The people, in their order.
    fn into_iter(self) -> (iter: std::vec::IntoIter<Person>)
        ensures
            iter == vstd::std_specs::vec::spec_into_iter(self.inner),
    {
        self.inner.into_iter()
    }
}

/// An account of a person with a service.
#[derive(Clone, Debug, PartialEq)]
pub struct ServiceAccount {
    pub id: String,
    pub name: String,
    pub username: String,
    pub url: String,
}

impl ServiceAccount {
    /// The record that stores the account of the person `person_id`
    /// under `checksum`.
    pub fn to_record(&self, person_id: &str, checksum: String) -> (record: ServiceAccountRecord)
        ensures
            record.id == self.id,
            record.person_id@ == person_id@,
            record.checksum == checksum,
            record.name == self.name,
            record.username == self.username,
            record.url == self.url,
    {
        ServiceAccountRecord {
            checksum,
            id: self.id.clone(),
            person_id: string_of(&chars_of(person_id)),
            name: self.name.clone(),
            username: self.username.clone(),
            url: self.url.clone(),
        }
    }
}

impl From<ServiceAccountRecord> for ServiceAccount {
    fn from(record: ServiceAccountRecord) -> (account: ServiceAccount) {
        ServiceAccount {
            id: record.id,
            name: record.name,
            username: record.username,
            url: record.url,
        }
    }
}

impl FromSpecImpl<ServiceAccountRecord> for ServiceAccount {
    open spec fn obeys_from_spec() -> bool {
        true
    }

    open spec fn from_spec(record: ServiceAccountRecord) -> ServiceAccount {
        account_of(record)
    }
}

} // verus!
