//! The onboarding metadata that the dashboard stores per merchant and user,
//! and the updates of it.
use vstd::prelude::*;

use crate::common::now;
use crate::enums;

verus! {

/// A stored metadata entry.
pub struct DashboardMetadata {
    pub id: i32,
    pub user_id: Option<String>,
    pub merchant_id: String,
    pub org_id: String,
    pub data_key: enums::DashboardMetadata,
    pub data_value: serde_json::Value,
    pub created_by: String,
    pub created_at: time::PrimitiveDateTime,
    pub last_modified_by: String,
    pub last_modified_at: time::PrimitiveDateTime,
}

/// A metadata entry to be inserted.
pub struct DashboardMetadataNew {
    pub user_id: Option<String>,
    pub merchant_id: String,
    pub org_id: String,
    pub data_key: enums::DashboardMetadata,
    pub data_value: serde_json::Value,
    pub created_by: String,
    pub created_at: time::PrimitiveDateTime,
    pub last_modified_by: String,
    pub last_modified_at: time::PrimitiveDateTime,
}

/// The columns that an update of a metadata entry sets.
pub struct DashboardMetadataUpdateInternal {
    pub data_key: enums::DashboardMetadata,
    pub data_value: serde_json::Value,
    pub last_modified_by: String,
    pub last_modified_at: time::PrimitiveDateTime,
}

/// A change to a metadata entry.
pub enum DashboardMetadataUpdate {
    UpdateData {
        data_key: enums::DashboardMetadata,
        data_value: serde_json::Value,
        last_modified_by: String,
    },
}

/// The columns that `metadata_update` sets when it is made at `last_modified_at`.
pub open spec fn update_internal_at(
    metadata_update: DashboardMetadataUpdate,
    last_modified_at: time::PrimitiveDateTime,
) -> DashboardMetadataUpdateInternal {
    match metadata_update {
        DashboardMetadataUpdate::UpdateData { data_key, data_value, last_modified_by } => DashboardMetadataUpdateInternal {
            data_key,
            data_value,
            last_modified_by,
            last_modified_at,
        },
    }
}

impl DashboardMetadataUpdateInternal {
    /// The columns that `metadata_update` sets when it is made at the given
    /// time.
    pub fn from_update_at(
        metadata_update: DashboardMetadataUpdate,
        last_modified_at: time::PrimitiveDateTime,
    ) -> (res: DashboardMetadataUpdateInternal)
        ensures
            res == update_internal_at(metadata_update, last_modified_at),
    {
        match metadata_update {
            DashboardMetadataUpdate::UpdateData { data_key, data_value, last_modified_by } => DashboardMetadataUpdateInternal {
                data_key,
                data_value,
                last_modified_by,
                last_modified_at,
            },
        }
    }

    /// The columns that `metadata_update` sets now: the modification time is
    /// read from the clock, everything else comes from the update.
    pub fn from(metadata_update: DashboardMetadataUpdate) -> (res: DashboardMetadataUpdateInternal)
        ensures
            res == update_internal_at(metadata_update, res.last_modified_at),
    {
        let last_modified_at = now();
        Self::from_update_at(metadata_update, last_modified_at)
    }
}

} // verus!

verus! {

impl DashboardMetadataNew {
    /// Sets the user the entry belongs to.
    pub fn set_user_id(&mut self, val: Option<String>) -> (res: &mut Self)
        ensures
            *res == (DashboardMetadataNew { user_id: val, ..*old(self) }),
            *final(self) == *final(res),
    {
        self.user_id = val;
        self
    }

    /// Sets the merchant the entry belongs to.
    pub fn set_merchant_id(&mut self, val: String) -> (res: &mut Self)
        ensures
            *res == (DashboardMetadataNew { merchant_id: val, ..*old(self) }),
            *final(self) == *final(res),
    {
        self.merchant_id = val;
        self
    }

    /// Sets the organization the entry belongs to.
    pub fn set_org_id(&mut self, val: String) -> (res: &mut Self)
        ensures
            *res == (DashboardMetadataNew { org_id: val, ..*old(self) }),
            *final(self) == *final(res),
    {
        self.org_id = val;
        self
    }

    /// Sets the key of the entry.
    pub fn set_data_key(&mut self, val: enums::DashboardMetadata) -> (res: &mut Self)
        ensures
            *res == (DashboardMetadataNew { data_key: val, ..*old(self) }),
            *final(self) == *final(res),
    {
        self.data_key = val;
        self
    }

    /// Sets the value of the entry.
    pub fn set_data_value(&mut self, val: serde_json::Value) -> (res: &mut Self)
        ensures
            *res == (DashboardMetadataNew { data_value: val, ..*old(self) }),
            *final(self) == *final(res),
    {
        self.data_value = val;
        self
    }

    /// Sets who created the entry.
    pub fn set_created_by(&mut self, val: String) -> (res: &mut Self)
        ensures
            *res == (DashboardMetadataNew { created_by: val, ..*old(self) }),
            *final(self) == *final(res),
    {
        self.created_by = val;
        self
    }

    /// Sets when the entry was created.
    pub fn set_created_at(&mut self, val: time::PrimitiveDateTime) -> (res: &mut Self)
        ensures
            *res == (DashboardMetadataNew { created_at: val, ..*old(self) }),
            *final(self) == *final(res),
    {
        self.created_at = val;
        self
    }

    /// Sets who last modified the entry.
    pub fn set_last_modified_by(&mut self, val: String) -> (res: &mut Self)
        ensures
            *res == (DashboardMetadataNew { last_modified_by: val, ..*old(self) }),
            *final(self) == *final(res),
    {
        self.last_modified_by = val;
        self
    }

    /// Sets when the entry was last modified.
    pub fn set_last_modified_at(&mut self, val: time::PrimitiveDateTime) -> (res: &mut Self)
        ensures
            *res == (DashboardMetadataNew { last_modified_at: val, ..*old(self) }),
            *final(self) == *final(res),
    {
        self.last_modified_at = val;
        self
    }
}

impl DashboardMetadataUpdateInternal {
    /// Sets the key of the entry.
    pub fn set_data_key(&mut self, val: enums::DashboardMetadata) -> (res: &mut Self)
        ensures
            *res == (DashboardMetadataUpdateInternal { data_key: val, ..*old(self) }),
            *final(self) == *final(res),
    {
        self.data_key = val;
        self
    }

    /// Sets the value of the entry.
    pub fn set_data_value(&mut self, val: serde_json::Value) -> (res: &mut Self)
        ensures
            *res == (DashboardMetadataUpdateInternal { data_value: val, ..*old(self) }),
            *final(self) == *final(res),
    {
        self.data_value = val;
        self
    }

    /// Sets who last modified the entry.
    pub fn set_last_modified_by(&mut self, val: String) -> (res: &mut Self)
        ensures
            *res == (DashboardMetadataUpdateInternal { last_modified_by: val, ..*old(self) }),
            *final(self) == *final(res),
    {
        self.last_modified_by = val;
        self
    }

    /// Sets when the entry was last modified.
    pub fn set_last_modified_at(&mut self, val: time::PrimitiveDateTime) -> (res: &mut Self)
        ensures
            *res == (DashboardMetadataUpdateInternal { last_modified_at: val, ..*old(self) }),
            *final(self) == *final(res),
    {
        self.last_modified_at = val;
        self
    }
}

} // verus!
