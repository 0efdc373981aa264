use router::dashboard_metadata::{
    DashboardMetadataNew, DashboardMetadataUpdate, DashboardMetadataUpdateInternal,
};
use router::enums::DashboardMetadata;

fn at(hour: u8) -> time::PrimitiveDateTime {
    time::PrimitiveDateTime::new(
        time::Date::from_calendar_date(2024, time::Month::June, 1).unwrap(),
        time::Time::from_hms(hour, 0, 0).unwrap(),
    )
}

fn update() -> DashboardMetadataUpdate {
    DashboardMetadataUpdate::UpdateData {
        data_key: DashboardMetadata::SetupProcessor,
        data_value: serde_json::Value::Bool(true),
        last_modified_by: "user_1".to_string(),
    }
}

#[test]
fn update_at_a_given_time() {
    let internal = DashboardMetadataUpdateInternal::from_update_at(update(), at(9));
    assert_eq!(internal.data_key, DashboardMetadata::SetupProcessor);
    assert_eq!(internal.data_value, serde_json::Value::Bool(true));
    assert_eq!(internal.last_modified_by, "user_1");
    assert_eq!(internal.last_modified_at, at(9));
}

#[test]
fn update_now_reads_the_clock() {
    let before = time::OffsetDateTime::now_utc();
    let internal = DashboardMetadataUpdateInternal::from(update());
    let after = time::OffsetDateTime::now_utc();
    assert_eq!(internal.last_modified_by, "user_1");
    let stamped = internal.last_modified_at.assume_utc();
    assert!(before <= stamped && stamped <= after);
}

#[test]
fn setters_change_one_field() {
    let mut internal = DashboardMetadataUpdateInternal::from_update_at(update(), at(1));
    internal.set_data_key(DashboardMetadata::Feedback).set_last_modified_by("user_2".to_string());
    assert_eq!(internal.data_key, DashboardMetadata::Feedback);
    assert_eq!(internal.last_modified_by, "user_2");
    assert_eq!(internal.last_modified_at, at(1));

    let mut new_entry = DashboardMetadataNew {
        user_id: None,
        merchant_id: "m".to_string(),
        org_id: "o".to_string(),
        data_key: DashboardMetadata::ProdIntent,
        data_value: serde_json::Value::Null,
        created_by: "u".to_string(),
        created_at: at(2),
        last_modified_by: "u".to_string(),
        last_modified_at: at(2),
    };
    new_entry.set_user_id(Some("user_3".to_string())).set_created_at(at(3));
    assert_eq!(new_entry.user_id.as_deref(), Some("user_3"));
    assert_eq!(new_entry.created_at, at(3));
    assert_eq!(new_entry.last_modified_at, at(2));
}
