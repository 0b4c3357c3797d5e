use device_registry::model::{ClientModel, DeviceModel, Timestamp};
use device_registry::query::Query;
use device_registry::response::{Envelope, Payload, Response, Step};
use device_registry::schema::{CreateDeviceSchema, FilterOptions, UpdateDeviceSchema};
use device_registry::services::devices::{
    create_device, create_device_for_client, delete_device_by_id, device_found, device_written,
    devices_listed, get_all_devices, get_device_by_id, insertion, merge_device, owner_found,
    owner_lookup, read_time, update_device_by_id,
};

const OWNER: u128 = 0xf47ac10b_58cc_4372_a567_0e02b2c3d479;

fn jane() -> ClientModel {
    ClientModel {
        id: OWNER,
        name: "Jane".to_string(),
        status: "active".to_string(),
        created_at: Some(Timestamp { seconds: 1_700_000_000, nanos: 0 }),
    }
}

fn body() -> CreateDeviceSchema {
    CreateDeviceSchema {
        client_id: "f47ac10b-58cc-4372-a567-0e02b2c3d479".to_string(),
        imei: "123456789012345".to_string(),
        model: "Model X".to_string(),
        serial_number: "SN1".to_string(),
        upload_data: "2025-07-18T12:34:56Z".to_string(),
        upload_gps: "2025-07-18T12:35:56Z".to_string(),
        status: "active".to_string(),
    }
}

fn stored() -> DeviceModel {
    DeviceModel {
        id: 77,
        client_id: OWNER,
        nickname: "janeSN1".to_string(),
        imei: "123456789012345".to_string(),
        model: "Model X".to_string(),
        serial_number: "SN1".to_string(),
        upload_data: Timestamp { seconds: 1_752_842_096, nanos: 0 },
        upload_gps: Timestamp { seconds: 1_752_842_156, nanos: 0 },
        status: "active".to_string(),
        created_at: Some(Timestamp { seconds: 1_752_842_200, nanos: 250 }),
    }
}

fn no_change() -> UpdateDeviceSchema {
    UpdateDeviceSchema {
        nickname: None,
        imei: None,
        model: None,
        upload_data: None,
        upload_gps: None,
        status: None,
    }
}

fn message(code: u16, status: &str, text: &str) -> Response {
    Response {
        code,
        body: Some(Envelope {
            status: status.to_string(),
            payload: Payload::Message(text.to_string()),
        }),
    }
}

#[test]
fn create_device_reads_the_owner() {
    assert_eq!(create_device(&body()), Step::Ask(Query::SelectClient { id: OWNER }));
}

#[test]
fn create_device_reads_the_owner_as_the_uuid_crate_does() {
    let text = "936DA01F9ABD4d9d80C702AF85C822A8";
    let mut request = body();
    request.client_id = text.to_string();
    let id = uuid::Uuid::parse_str(text).unwrap().as_u128();
    assert_eq!(id, 0x936da01f_9abd_4d9d_80c7_02af85c822a8);
    assert_eq!(create_device(&request), Step::Ask(Query::SelectClient { id }));
}

#[test]
fn create_device_refuses_a_malformed_owner() {
    let mut request = body();
    request.client_id = "not-a-uuid".to_string();
    assert_eq!(
        create_device(&request),
        Step::Reply(message(400, "error", "Invalid client_id UUID"))
    );
    request.client_id = String::new();
    assert_eq!(
        create_device(&request),
        Step::Reply(message(400, "error", "Invalid client_id UUID"))
    );
}

#[test]
fn owner_lookup_on_both_outcomes() {
    assert_eq!(owner_lookup(Some(5)), Step::Ask(Query::SelectClient { id: 5 }));
    assert_eq!(owner_lookup(None), Step::Reply(message(400, "error", "Invalid client_id UUID")));
}

#[test]
fn create_device_derives_the_nickname() {
    let step = create_device_for_client(&body(), Ok(Some(jane())));
    assert_eq!(
        step,
        Step::Ask(Query::InsertDevice {
            client_id: OWNER,
            nickname: "janeSN1".to_string(),
            imei: "123456789012345".to_string(),
            model: "Model X".to_string(),
            serial_number: "SN1".to_string(),
            upload_data: Timestamp { seconds: 1_752_842_096, nanos: 0 },
            upload_gps: Timestamp { seconds: 1_752_842_156, nanos: 0 },
            status: "active".to_string(),
        })
    );
}

#[test]
fn nickname_lowers_letters_outside_ascii_and_keeps_the_serial() {
    let mut owner = jane();
    owner.name = "\u{c9}MILE Zola".to_string();
    let mut request = body();
    request.serial_number = "Sn-9".to_string();
    match create_device_for_client(&request, Ok(Some(owner))) {
        Step::Ask(Query::InsertDevice { nickname, serial_number, .. }) => {
            assert_eq!(nickname, "\u{e9}mile zolaSn-9");
            assert_eq!(serial_number, "Sn-9");
        }
        other => panic!("no insertion: {:?}", other),
    }
}

#[test]
fn create_device_with_unknown_owner_is_a_bad_request() {
    let step = create_device_for_client(&body(), Ok(None));
    assert_eq!(step, Step::Reply(message(400, "error", "Client not found")));
}

#[test]
fn failed_lookup_of_the_owner_is_a_server_error() {
    let step = create_device_for_client(&body(), Err("PoolTimedOut".to_string()));
    assert_eq!(step, Step::Reply(message(500, "error", "PoolTimedOut")));
}

#[test]
fn unknown_owner_is_reported_before_a_malformed_time() {
    let mut request = body();
    request.upload_data = "yesterday".to_string();
    let step = create_device_for_client(&request, Ok(None));
    assert_eq!(step, Step::Reply(message(400, "error", "Client not found")));
}

#[test]
fn malformed_owner_is_refused_after_the_lookup_too() {
    let mut request = body();
    request.client_id = "not-a-uuid".to_string();
    assert_eq!(
        create_device_for_client(&request, Ok(Some(jane()))),
        Step::Reply(message(400, "error", "Invalid client_id UUID"))
    );
}

#[test]
fn device_is_inserted_for_the_client_that_the_body_names() {
    let mut request = body();
    request.client_id = "936da01f-9abd-4d9d-80c7-02af85c822a8".to_string();
    match create_device_for_client(&request, Ok(Some(jane()))) {
        Step::Ask(Query::InsertDevice { client_id, .. }) => {
            assert_eq!(client_id, 0x936da01f_9abd_4d9d_80c7_02af85c822a8);
        }
        other => panic!("no insertion: {:?}", other),
    }
}

#[test]
fn owner_found_on_every_outcome() {
    assert_eq!(owner_found(Some(5), Ok(Some(jane()))), Ok((5, jane())));
    assert_eq!(
        owner_found(Some(5), Ok(None)),
        Err(message(400, "error", "Client not found"))
    );
    assert_eq!(
        owner_found(Some(5), Err("Io(reset)".to_string())),
        Err(message(500, "error", "Io(reset)"))
    );
    assert_eq!(
        owner_found(None, Ok(Some(jane()))),
        Err(message(400, "error", "Invalid client_id UUID"))
    );
    assert_eq!(
        owner_found(None, Err("Io(reset)".to_string())),
        Err(message(400, "error", "Invalid client_id UUID"))
    );
}

#[test]
fn create_device_refuses_a_malformed_upload_data() {
    let mut request = body();
    request.upload_data = "18/07/2025".to_string();
    assert_eq!(
        create_device_for_client(&request, Ok(Some(jane()))),
        Step::Reply(message(400, "error", "Invalid upload_data datetime format"))
    );
}

#[test]
fn create_device_refuses_a_malformed_upload_gps() {
    let mut request = body();
    request.upload_gps = "2025-07-18".to_string();
    assert_eq!(
        create_device_for_client(&request, Ok(Some(jane()))),
        Step::Reply(message(400, "error", "Invalid upload_gps datetime format"))
    );
}

#[test]
fn upload_data_is_tested_before_upload_gps() {
    let mut request = body();
    request.upload_data = String::new();
    request.upload_gps = String::new();
    assert_eq!(
        create_device_for_client(&request, Ok(Some(jane()))),
        Step::Reply(message(400, "error", "Invalid upload_data datetime format"))
    );
}

#[test]
fn insertion_on_given_times() {
    let data = Timestamp { seconds: 10, nanos: 1 };
    let gps = Timestamp { seconds: -20, nanos: 2 };
    assert_eq!(
        insertion(&body(), 3, "acme".to_string(), Some(data), Some(gps)),
        Step::Ask(Query::InsertDevice {
            client_id: 3,
            nickname: "acmeSN1".to_string(),
            imei: "123456789012345".to_string(),
            model: "Model X".to_string(),
            serial_number: "SN1".to_string(),
            upload_data: data,
            upload_gps: gps,
            status: "active".to_string(),
        })
    );
    assert_eq!(
        insertion(&body(), 3, "acme".to_string(), None, Some(gps)),
        Step::Reply(message(400, "error", "Invalid upload_data datetime format"))
    );
    assert_eq!(
        insertion(&body(), 3, "acme".to_string(), Some(data), None),
        Step::Reply(message(400, "error", "Invalid upload_gps datetime format"))
    );
    assert_eq!(
        insertion(&body(), 3, "acme".to_string(), None, None),
        Step::Reply(message(400, "error", "Invalid upload_data datetime format"))
    );
}

#[test]
fn times_are_read_as_chrono_reads_them() {
    assert_eq!(
        read_time(&Some("2025-07-18 12:34:56.5+02:00".to_string())),
        Some(Timestamp { seconds: 1_752_834_896, nanos: 500_000_000 })
    );
    assert_eq!(
        read_time(&Some("1969-12-31T23:59:59Z".to_string())),
        Some(Timestamp { seconds: -1, nanos: 0 })
    );
    let parsed = "2025-07-18T12:34:56Z".parse::<chrono::DateTime<chrono::Utc>>().unwrap();
    assert_eq!(
        read_time(&Some("2025-07-18T12:34:56Z".to_string())),
        Some(Timestamp {
            seconds: parsed.timestamp(),
            nanos: parsed.timestamp_subsec_nanos(),
        })
    );
    assert_eq!(read_time(&Some("2025-07-18T12:34:56".to_string())), None);
    assert_eq!(read_time(&Some("2025-02-30T12:34:56Z".to_string())), None);
    assert_eq!(read_time(&None), None);
}

#[test]
fn device_written_wraps_the_row_or_the_failure() {
    assert_eq!(
        device_written(Ok(stored())),
        Response {
            code: 200,
            body: Some(Envelope {
                status: "success".to_string(),
                payload: Payload::Device(stored()),
            }),
        }
    );
    assert_eq!(
        device_written(Err("Database(violates foreign key constraint)".to_string())),
        message(500, "error", "Database(violates foreign key constraint)")
    );
}

#[test]
fn get_all_devices_computes_the_window() {
    let opts = FilterOptions { limit: Some(2), page: Some(2) };
    let query = get_all_devices(&opts);
    assert_eq!(query, Query::ListDevices { limit: 2, offset: 2 });
    assert_eq!(
        query.statement(),
        "SELECT * FROM devices ORDER BY created_at DESC LIMIT $1 OFFSET $2"
    );
    let opts = FilterOptions { limit: None, page: None };
    assert_eq!(get_all_devices(&opts), Query::ListDevices { limit: 10, offset: 0 });
    let opts = FilterOptions { limit: Some(25), page: Some(4) };
    assert_eq!(get_all_devices(&opts), Query::ListDevices { limit: 25, offset: 75 });
}

#[test]
fn devices_listed_counts_the_rows() {
    let mut second = stored();
    second.id = 78;
    assert_eq!(
        devices_listed(Ok(vec![stored(), second.clone()])),
        Response {
            code: 200,
            body: Some(Envelope {
                status: "success".to_string(),
                payload: Payload::Devices { result: 2, devices: vec![stored(), second] },
            }),
        }
    );
    assert_eq!(
        devices_listed(Ok(Vec::new())),
        Response {
            code: 200,
            body: Some(Envelope {
                status: "success".to_string(),
                payload: Payload::Devices { result: 0, devices: Vec::new() },
            }),
        }
    );
    assert_eq!(
        devices_listed(Err("OFFSET must not be negative".to_string())),
        message(500, "error", "OFFSET must not be negative")
    );
}

#[test]
fn get_device_by_id_and_its_answer() {
    assert_eq!(get_device_by_id(77), Query::SelectDevice { id: 77 });
    assert_eq!(
        device_found(Ok(Some(stored()))),
        Response {
            code: 200,
            body: Some(Envelope {
                status: "success".to_string(),
                payload: Payload::Device(stored()),
            }),
        }
    );
    assert_eq!(device_found(Ok(None)), message(404, "not found", "RowNotFound"));
    assert_eq!(
        device_found(Err("PoolTimedOut".to_string())),
        message(500, "error", "PoolTimedOut")
    );
}

#[test]
fn update_device_of_a_missing_row_is_not_found() {
    let mut change = no_change();
    change.status = Some("inactive".to_string());
    assert_eq!(
        update_device_by_id(77, &change, Ok(None)),
        Step::Reply(message(404, "not found", "RowNotFound"))
    );
}

#[test]
fn update_device_after_a_failed_lookup_is_a_server_error() {
    let mut change = no_change();
    change.status = Some("inactive".to_string());
    assert_eq!(
        update_device_by_id(77, &change, Err("PoolTimedOut".to_string())),
        Step::Reply(message(500, "error", "PoolTimedOut"))
    );
}

#[test]
fn update_device_lays_present_fields_over_the_row() {
    let change = UpdateDeviceSchema {
        nickname: Some("Sensor Kitchen".to_string()),
        imei: None,
        model: Some("Model Y".to_string()),
        upload_data: Some("2025-07-18T12:35:56Z".to_string()),
        upload_gps: None,
        status: Some("inactive".to_string()),
    };
    assert_eq!(
        update_device_by_id(77, &change, Ok(Some(stored()))),
        Step::Ask(Query::UpdateDevice {
            nickname: "Sensor Kitchen".to_string(),
            imei: "123456789012345".to_string(),
            model: "Model Y".to_string(),
            upload_data: Timestamp { seconds: 1_752_842_156, nanos: 0 },
            upload_gps: Timestamp { seconds: 1_752_842_156, nanos: 0 },
            status: "inactive".to_string(),
            id: 77,
        })
    );
}

#[test]
fn update_device_with_no_field_writes_the_row_back() {
    assert_eq!(
        update_device_by_id(77, &no_change(), Ok(Some(stored()))),
        Step::Ask(Query::UpdateDevice {
            nickname: "janeSN1".to_string(),
            imei: "123456789012345".to_string(),
            model: "Model X".to_string(),
            upload_data: Timestamp { seconds: 1_752_842_096, nanos: 0 },
            upload_gps: Timestamp { seconds: 1_752_842_156, nanos: 0 },
            status: "active".to_string(),
            id: 77,
        })
    );
}

#[test]
fn malformed_time_is_passed_over_on_update_and_refused_on_create() {
    let malformed = "18/07/2025 12:34";
    let mut change = no_change();
    change.upload_data = Some(malformed.to_string());
    change.upload_gps = Some(malformed.to_string());
    match update_device_by_id(77, &change, Ok(Some(stored()))) {
        Step::Ask(Query::UpdateDevice { upload_data, upload_gps, id, .. }) => {
            assert_eq!(upload_data, stored().upload_data);
            assert_eq!(upload_gps, stored().upload_gps);
            assert_eq!(id, 77);
        }
        other => panic!("no update: {:?}", other),
    }
    let mut request = body();
    request.upload_data = malformed.to_string();
    match create_device_for_client(&request, Ok(Some(jane()))) {
        Step::Reply(response) => assert_eq!(response.code, 400),
        other => panic!("no refusal: {:?}", other),
    }
}

#[test]
fn update_writes_to_the_row_of_the_path() {
    match update_device_by_id(1234, &no_change(), Ok(Some(stored()))) {
        Step::Ask(Query::UpdateDevice { id, .. }) => assert_eq!(id, 1234),
        other => panic!("no update: {:?}", other),
    }
}

#[test]
fn merge_device_on_given_times() {
    let data = Timestamp { seconds: 5, nanos: 6 };
    let mut change = no_change();
    change.imei = Some("999".to_string());
    assert_eq!(
        merge_device(77, &change, stored(), Some(data), None),
        Query::UpdateDevice {
            nickname: "janeSN1".to_string(),
            imei: "999".to_string(),
            model: "Model X".to_string(),
            upload_data: data,
            upload_gps: Timestamp { seconds: 1_752_842_156, nanos: 0 },
            status: "active".to_string(),
            id: 77,
        }
    );
}

#[test]
fn delete_device_by_id_names_the_row() {
    let query = delete_device_by_id(77);
    assert_eq!(query, Query::DeleteDevice { id: 77 });
    assert_eq!(query.statement(), "DELETE FROM devices WHERE id = $1");
}
