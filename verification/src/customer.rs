//! The customer of a merchant as the domain sees it, and its conversions to
//! and from the stored record.
use vstd::prelude::*;
use vstd::std_specs::convert::FromSpecImpl;

use crate::crypto::{decrypted_text, Encryptable, Encryption, GcmAes256};
use crate::errors::ValidationError;
use crate::storage;

verus! {

/// A customer with its personal fields both in plain and encrypted form.
pub struct Customer {
    pub id: Option<i32>,
    pub customer_id: String,
    pub merchant_id: String,
    pub name: Option<Encryptable<String>>,
    pub email: Option<Encryptable<String>>,
    pub phone: Option<Encryptable<String>>,
    pub phone_country_code: Option<String>,
    pub description: Option<String>,
    pub created_at: time::PrimitiveDateTime,
    pub metadata: Option<serde_json::Value>,
}

/// The stored form of an optional encrypted field.
pub open spec fn encryption_of(field: Option<Encryptable<String>>) -> Option<Encryption> {
    match field {
        Some(e) => Some(Encryption { inner: e.encrypted }),
        None => None,
    }
}

/// The stored form of an optional encrypted field: its ciphertext.
fn to_encryption(field: Option<Encryptable<String>>) -> (res: Option<Encryption>)
    ensures
        res == encryption_of(field),
{
    match field {
        Some(value) => Some(Encryption::from(value)),
        None => None,
    }
}

/// The key that stored customer fields are decrypted with.
pub open spec fn customer_key() -> Seq<u8> {
    seq![0u8]
}

/// `read` is what reading back the stored field `stored` under `key` gives:
/// nothing for nothing, else the decrypted text beside the ciphertext.
pub open spec fn field_read_back(key: Seq<u8>, stored: Option<Encryption>, read: Option<Encryptable<String>>) -> bool {
    match (stored, read) {
        (None, None) => true,
        (Some(e), Some(r)) => decrypted_text(key, e.inner@) == Some(r.inner@) && r.encrypted@ == e.inner@,
        _ => false,
    }
}

/// Whether the stored field `stored` can be read back under `key`.
pub open spec fn field_readable(key: Seq<u8>, stored: Option<Encryption>) -> bool {
    match stored {
        None => true,
        Some(e) => decrypted_text(key, e.inner@) is Some,
    }
}

/// `item` is the stored record of the customer `c`.
pub open spec fn stored_as(c: Customer, item: storage::Customer) -> bool {
    &&& c.id == Some(item.id)
    &&& item.customer_id == c.customer_id
    &&& item.merchant_id == c.merchant_id
    &&& item.name == encryption_of(c.name)
    &&& item.email == encryption_of(c.email)
    &&& item.phone == encryption_of(c.phone)
    &&& item.phone_country_code == c.phone_country_code
    &&& item.description == c.description
    &&& item.created_at == c.created_at
    &&& item.metadata == c.metadata
}

/// `c` is the customer read back from the stored record `item`.
pub open spec fn read_back_as(item: storage::Customer, c: Customer) -> bool {
    &&& c.id == Some(item.id)
    &&& c.customer_id == item.customer_id
    &&& c.merchant_id == item.merchant_id
    &&& field_read_back(customer_key(), item.name, c.name)
    &&& field_read_back(customer_key(), item.email, c.email)
    &&& field_read_back(customer_key(), item.phone, c.phone)
    &&& c.phone_country_code == item.phone_country_code
    &&& c.description == item.description
    &&& c.created_at == item.created_at
    &&& c.metadata == item.metadata
}

/// The record of a new customer to be inserted for `c`.
pub open spec fn new_record_of(c: Customer) -> storage::CustomerNew {
    storage::CustomerNew {
        customer_id: c.customer_id,
        merchant_id: c.merchant_id,
        name: encryption_of(c.name),
        email: encryption_of(c.email),
        phone: encryption_of(c.phone),
        description: c.description,
        phone_country_code: c.phone_country_code,
        metadata: c.metadata,
    }
}

/// The message of the error for a stored customer field that cannot be decrypted.
pub open spec fn decrypt_failure_message() -> Seq<char> {
    "Failed while decrypting customer data"@
}

/// Reads back an optional stored field under `key`.
fn decrypt_field(field: Option<Encryption>, key: &[u8]) -> (res: Result<Option<Encryptable<String>>, ValidationError>)
    ensures
        field_readable(key@, field) ==> res is Ok && field_read_back(key@, field, res->Ok_0),
        !field_readable(key@, field) ==> res is Err && (res->Err_0 matches ValidationError::InvalidValue { message } && message@ == decrypt_failure_message()),
        key@.len() != 32 ==> (res is Ok <==> field is None),
{
    match field {
        None => Ok(None),
        Some(value) => match Encryptable::<String>::decrypt(value, key, GcmAes256) {
            Ok(decrypted) => Ok(Some(decrypted)),
            Err(_) => Err(ValidationError::InvalidValue {
                message: String::from_str("Failed while decrypting customer data"),
            }),
        },
    }
}

/// A domain model that is stored as a record of another type.
pub trait Conversion: Sized {
    /// The stored record.
    type DstType;

    /// The record inserted for a new model.
    type NewDstType;

    /// The stored record of the model.
    fn convert(self) -> Result<Self::DstType, ValidationError>;

    /// The model that a stored record holds.
    fn convert_back(item: Self::DstType) -> Result<Self, ValidationError>;

    /// The record to insert for a new model.
    fn construct_new(self) -> Result<Self::NewDstType, ValidationError>;
}

impl Conversion for Customer {
    type DstType = storage::Customer;

    type NewDstType = storage::CustomerNew;

    /// A customer is stored only once it has an id.
    fn convert(self) -> (res: Result<storage::Customer, ValidationError>)
        ensures
            res is Ok <==> self.id is Some,
            res matches Ok(item) ==> stored_as(self, item),
            res matches Err(e) ==> (e matches ValidationError::MissingRequiredField { field_name } && field_name@ == "id"@),
    {
        let id = match self.id {
            Some(id) => id,
            None => {
                return Err(ValidationError::MissingRequiredField { field_name: String::from_str("id") });
            },
        };
        Ok(storage::Customer {
            id,
            customer_id: self.customer_id,
            merchant_id: self.merchant_id,
            name: to_encryption(self.name),
            email: to_encryption(self.email),
            phone: to_encryption(self.phone),
            phone_country_code: self.phone_country_code,
            description: self.description,
            created_at: self.created_at,
            metadata: self.metadata,
        })
    }

    /// Reads a stored customer back, decrypting its personal fields under the
    /// customer key; a field that cannot be decrypted fails the read.
    fn convert_back(item: storage::Customer) -> (res: Result<Customer, ValidationError>)
        ensures
            res is Ok <==> (field_readable(customer_key(), item.name) && field_readable(customer_key(), item.email) && field_readable(customer_key(), item.phone)),
            res matches Ok(c) ==> read_back_as(item, c),
            res matches Err(e) ==> (e matches ValidationError::InvalidValue { message } && message@ == decrypt_failure_message()),
            res is Ok <==> (item.name is None && item.email is None && item.phone is None),
    {
        let key: Vec<u8> = vec![0u8];
        assert(key@ =~= customer_key());
        let name = decrypt_field(item.name, key.as_slice())?;
        let email = decrypt_field(item.email, key.as_slice())?;
        let phone = decrypt_field(item.phone, key.as_slice())?;
        Ok(Customer {
            id: Some(item.id),
            customer_id: item.customer_id,
            merchant_id: item.merchant_id,
            name,
            email,
            phone,
            phone_country_code: item.phone_country_code,
            description: item.description,
            created_at: item.created_at,
            metadata: item.metadata,
        })
    }

    /// The record inserted for a new customer; it never fails.
    fn construct_new(self) -> (res: Result<storage::CustomerNew, ValidationError>)
        ensures
            res matches Ok(item) && item == new_record_of(self),
    {
        Ok(storage::CustomerNew {
            customer_id: self.customer_id,
            merchant_id: self.merchant_id,
            name: to_encryption(self.name),
            email: to_encryption(self.email),
            phone: to_encryption(self.phone),
            description: self.description,
            phone_country_code: self.phone_country_code,
            metadata: self.metadata,
        })
    }
}

/// A customer with an id and no encrypted fields comes back unchanged from
/// being stored and read back.
pub proof fn lemma_customer_round_trip(c: Customer, item: storage::Customer, back: Customer)
    requires
        c.id is Some,
        c.name is None,
        c.email is None,
        c.phone is None,
        stored_as(c, item),
        read_back_as(item, back),
    ensures
        back == c,
{
}

/// The record inserted for a new customer holds the same fields as the
/// customer's stored record, apart from the id and the creation time that
/// storage assigns.
pub proof fn lemma_new_record_matches_stored_record(c: Customer, item: storage::Customer)
    requires
        stored_as(c, item),
    ensures
        ({
            let new_record = new_record_of(c);
            &&& new_record.customer_id == item.customer_id
            &&& new_record.merchant_id == item.merchant_id
            &&& new_record.name == item.name
            &&& new_record.email == item.email
            &&& new_record.phone == item.phone
            &&& new_record.description == item.description
            &&& new_record.phone_country_code == item.phone_country_code
            &&& new_record.metadata == item.metadata
        }),
{
}

/// A change to a customer's editable fields.
pub enum CustomerUpdate {
    Update {
        name: Option<Encryptable<String>>,
        email: Option<Encryptable<String>>,
        phone: Option<Encryptable<String>>,
        description: Option<String>,
        phone_country_code: Option<String>,
        metadata: Option<serde_json::Value>,
    },
}

/// The stored columns that a customer update sets.
pub open spec fn update_internal_of(customer_update: CustomerUpdate) -> storage::CustomerUpdateInternal {
    match customer_update {
        CustomerUpdate::Update { name, email, phone, description, phone_country_code, metadata } => storage::CustomerUpdateInternal {
            name: encryption_of(name),
            email: encryption_of(email),
            phone: encryption_of(phone),
            description,
            phone_country_code,
            metadata,
        },
    }
}

impl From<CustomerUpdate> for storage::CustomerUpdateInternal {
    fn from(customer_update: CustomerUpdate) -> (res: Self) {
        match customer_update {
            CustomerUpdate::Update { name, email, phone, description, phone_country_code, metadata } => storage::CustomerUpdateInternal {
                name: to_encryption(name),
                email: to_encryption(email),
                phone: to_encryption(phone),
                description,
                phone_country_code,
                metadata,
            },
        }
    }
}

impl FromSpecImpl<CustomerUpdate> for storage::CustomerUpdateInternal {
    open spec fn obeys_from_spec() -> bool {
        true
    }

    open spec fn from_spec(customer_update: CustomerUpdate) -> Self {
        update_internal_of(customer_update)
    }
}

/// The stored columns of a customer update carry each plain field of the
/// update unchanged (description, phone country code, metadata), and the
/// ciphertext of each encrypted field that the update sets; an encrypted
/// field that the update leaves unset is not stored.
pub proof fn lemma_update_sets_its_fields(
    customer_update: CustomerUpdate,
    res: storage::CustomerUpdateInternal,
)
    requires
        call_ensures(<storage::CustomerUpdateInternal as From<CustomerUpdate>>::from, (customer_update,), res),
    ensures
        match customer_update {
            CustomerUpdate::Update { name, email, phone, description, phone_country_code, metadata } => {
                &&& res.description == description
                &&& res.phone_country_code == phone_country_code
                &&& res.metadata == metadata
                &&& (name matches Some(n) ==> res.name matches Some(e) && e.inner == n.encrypted)
                &&& (name is None ==> res.name is None)
                &&& (email matches Some(n) ==> res.email matches Some(e) && e.inner == n.encrypted)
                &&& (email is None ==> res.email is None)
                &&& (phone matches Some(n) ==> res.phone matches Some(e) && e.inner == n.encrypted)
                &&& (phone is None ==> res.phone is None)
            },
        },
{
}

} // verus!
