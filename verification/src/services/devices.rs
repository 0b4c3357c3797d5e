//! The five endpoints under `/api/devices`.

use vstd::prelude::*;
use vstd::string::StringExecFns;
use crate::model::{ClientModel, ClientView, DeviceModel, DeviceView, Timestamp, device_views};
use crate::outside::{
    identifier_of,
    lowercase,
    lowercase_of,
    parse_identifier,
    parse_timestamp,
    timestamp_of,
};
use crate::paging::{clamp_i64, limit_of, offset_of, page_of, window};
use crate::query::{Query, QueryView};
use crate::response::{
    Payload,
    PayloadView,
    Response,
    ResponseView,
    Step,
    StepView,
    bad_request,
    not_found,
    server_error,
    success,
};
use crate::schema::{
    CreateDeviceSchema,
    CreateDeviceView,
    FilterOptions,
    UpdateDeviceSchema,
    UpdateDeviceView,
};
use crate::services::{
    absent_row,
    client_lookup,
    device_lookup,
    device_outcome,
    merge_text,
    text_or,
};

verus! {

/// The nickname that a new device gets: the owner's name in lower case,
/// directly followed by the serial number.
pub open spec fn nickname_of(client_name: Seq<char>, serial_number: Seq<char>) -> Seq<char> {
    lowercase_of(client_name) + serial_number
}

/// The first step of a creation, given what the owner's identifier was read
/// as: the lookup of the owner, or 400 where the text is no identifier.
pub open spec fn owner_lookup_step(parsed: Option<u128>) -> StepView {
    match parsed {
        Some(id) => StepView::Ask(QueryView::SelectClient { id }),
        None => StepView::Reply(bad_request("Invalid client_id UUID"@)),
    }
}

/// The step after the owner was found, given the owner's name in lower case
/// and what the two times were read as: 400 for the first time that is none,
/// `upload_data` before `upload_gps`, else the insertion.
pub open spec fn insertion_step(
    body: CreateDeviceView,
    client_id: u128,
    lowered_name: Seq<char>,
    upload_data: Option<Timestamp>,
    upload_gps: Option<Timestamp>,
) -> StepView {
    match (upload_data, upload_gps) {
        (None, _) => StepView::Reply(bad_request("Invalid upload_data datetime format"@)),
        (Some(_), None) => StepView::Reply(bad_request("Invalid upload_gps datetime format"@)),
        (Some(data), Some(gps)) => StepView::Ask(
            QueryView::InsertDevice {
                client_id,
                nickname: lowered_name + body.serial_number,
                imei: body.imei,
                model: body.model,
                serial_number: body.serial_number,
                upload_data: data,
                upload_gps: gps,
                status: body.status,
            },
        ),
    }
}

/// What the lookup of the owner settles, given what the owner's identifier
/// was read as: the identifier and the owner, or the response that ends the
/// creation. That is 400 where the text is no identifier, 400 where the
/// table holds no such client, and 500 with the failure where the lookup
/// itself failed.
pub open spec fn owner_or_refusal(
    parsed: Option<u128>,
    found: Result<Option<ClientView>, Seq<char>>,
) -> Result<(u128, ClientView), ResponseView> {
    match parsed {
        None => Err(bad_request("Invalid client_id UUID"@)),
        Some(client_id) => match found {
            Ok(Some(client)) => Ok((client_id, client)),
            Ok(None) => Err(bad_request("Client not found"@)),
            Err(failure) => Err(server_error(failure)),
        },
    }
}

/// The step after the lookup of the owner: the refusal that
/// `owner_or_refusal` gives, else what `insertion_step` says for the
/// identifier that the body names.
pub open spec fn creation_step(
    body: CreateDeviceView,
    parsed: Option<u128>,
    found: Result<Option<ClientView>, Seq<char>>,
) -> StepView {
    match owner_or_refusal(parsed, found) {
        Ok((client_id, client)) => insertion_step(
            body,
            client_id,
            lowercase_of(client.name),
            timestamp_of(body.upload_data),
            timestamp_of(body.upload_gps),
        ),
        Err(refusal) => StepView::Reply(refusal),
    }
}

/// A settled owner, as mathematical values.
pub open spec fn settled_owner(settled: Result<(u128, ClientModel), Response>) -> Result<
    (u128, ClientView),
    ResponseView,
> {
    match settled {
        Ok((client_id, client)) => Ok((client_id, client@)),
        Err(refusal) => Err(refusal@),
    }
}

/// `POST /api/devices`, up to the lookup of the owner.
pub fn create_device(body: &CreateDeviceSchema) -> (step: Step)
    ensures
        step@ == owner_lookup_step(identifier_of(body.client_id@)),
{
    owner_lookup(parse_identifier(body.client_id.as_str()))
}

/// The lookup of the client that `parsed` names, or 400 where it names none.
pub fn owner_lookup(parsed: Option<u128>) -> (step: Step)
    ensures
        step@ == owner_lookup_step(parsed),
{
    match parsed {
        Some(id) => Step::Ask(Query::SelectClient { id }),
        None => Step::Reply(Response::bad_request("Invalid client_id UUID")),
    }
}

/// The owner of a new device, or the response that ends the creation:
/// `parsed` is what the owner's identifier was read as, `found` the outcome
/// of the lookup.
pub fn owner_found(parsed: Option<u128>, found: Result<Option<ClientModel>, String>) -> (settled:
    Result<(u128, ClientModel), Response>)
    ensures
        settled_owner(settled) == owner_or_refusal(parsed, client_lookup(found)),
{
    let client_id = match parsed {
        Some(client_id) => client_id,
        None => {
            return Err(Response::bad_request("Invalid client_id UUID"));
        },
    };
    match found {
        Ok(Some(client)) => Ok((client_id, client)),
        Ok(None) => Err(Response::bad_request("Client not found")),
        Err(failure) => Err(Response::server_error(failure)),
    }
}

/// `POST /api/devices`, from the outcome of the lookup of the owner to the
/// insertion. The device is inserted for the client that the body names.
pub fn create_device_for_client(
    body: &CreateDeviceSchema,
    found: Result<Option<ClientModel>, String>,
) -> (step: Step)
    ensures
        step@ == creation_step(body@, identifier_of(body@.client_id), client_lookup(found)),
{
    match owner_found(parse_identifier(body.client_id.as_str()), found) {
        Ok((client_id, client)) => {
            let lowered_name = lowercase(client.name.as_str());
            let upload_data = parse_timestamp(body.upload_data.as_str());
            let upload_gps = parse_timestamp(body.upload_gps.as_str());
            insertion(body, client_id, lowered_name, upload_data, upload_gps)
        },
        Err(refusal) => Step::Reply(refusal),
    }
}

/// The insertion of a device whose owner's name in lower case is
/// `lowered_name`, or 400 where one of the two times is missing.
pub fn insertion(
    body: &CreateDeviceSchema,
    client_id: u128,
    lowered_name: String,
    upload_data: Option<Timestamp>,
    upload_gps: Option<Timestamp>,
) -> (step: Step)
    ensures
        step@ == insertion_step(body@, client_id, lowered_name@, upload_data, upload_gps),
{
    let data = match upload_data {
        Some(data) => data,
        None => {
            return Step::Reply(Response::bad_request("Invalid upload_data datetime format"));
        },
    };
    let gps = match upload_gps {
        Some(gps) => gps,
        None => {
            return Step::Reply(Response::bad_request("Invalid upload_gps datetime format"));
        },
    };
    Step::Ask(
        Query::InsertDevice {
            client_id,
            nickname: lowered_name.concat(body.serial_number.as_str()),
            imei: body.imei.clone(),
            model: body.model.clone(),
            serial_number: body.serial_number.clone(),
            upload_data: data,
            upload_gps: gps,
            status: body.status.clone(),
        },
    )
}

/// `POST /api/devices`, after the insertion, and `PATCH /api/devices/{id}`,
/// after the update: the row that was written.
pub open spec fn written_response(outcome: Result<DeviceView, Seq<char>>) -> ResponseView {
    match outcome {
        Ok(device) => success(PayloadView::Device(device)),
        Err(failure) => server_error(failure),
    }
}

/// The response to a creation or an update whose statement has run: 200
/// with the row that the statement returned, or 500 with the failure.
pub fn device_written(outcome: Result<DeviceModel, String>) -> (response: Response)
    ensures
        response@ == written_response(device_outcome(outcome)),
{
    match outcome {
        Ok(device) => Response::success(Payload::Device(device)),
        Err(failure) => Response::server_error(failure),
    }
}

/// `GET /api/devices`: the rows of the page that the request asks for, the
/// newest first.
pub fn get_all_devices(opts: &FilterOptions) -> (query: Query)
    ensures
        query@ == (QueryView::ListDevices {
            limit: clamp_i64(limit_of(*opts)),
            offset: clamp_i64(offset_of(*opts)),
        }),
        page_of(*opts) == 1 ==> query@ == (QueryView::ListDevices {
            limit: clamp_i64(limit_of(*opts)),
            offset: 0,
        }),
{
    let window = window(opts);
    Query::ListDevices { limit: window.limit, offset: window.offset }
}

/// The response to a list request: 200 with the rows and their number, or
/// 500 with the failure.
pub open spec fn listed_response(outcome: Result<Seq<DeviceView>, Seq<char>>) -> ResponseView {
    match outcome {
        Ok(devices) => success(PayloadView::Devices { result: devices.len() as int, devices }),
        Err(failure) => server_error(failure),
    }
}

/// What a list statement gave, as mathematical values.
pub open spec fn devices_outcome(outcome: Result<Vec<DeviceModel>, String>) -> Result<
    Seq<DeviceView>,
    Seq<char>,
> {
    match outcome {
        Ok(devices) => Ok(device_views(devices@)),
        Err(failure) => Err(failure@),
    }
}

/// `GET /api/devices`, after the statement.
pub fn devices_listed(outcome: Result<Vec<DeviceModel>, String>) -> (response: Response)
    ensures
        response@ == listed_response(devices_outcome(outcome)),
{
    match outcome {
        Ok(devices) => Response::success(Payload::Devices { result: devices.len(), devices }),
        Err(failure) => Response::server_error(failure),
    }
}

/// `GET /api/devices/{id}`: the row with that identifier. The same lookup
/// opens `PATCH /api/devices/{id}`.
pub fn get_device_by_id(id: u128) -> (query: Query)
    ensures
        query@ == (QueryView::SelectDevice { id }),
{
    Query::SelectDevice { id }
}

/// The response to a lookup: 200 with the row, 404 where the table holds no
/// such row, or 500 with the failure where the lookup itself failed.
pub open spec fn found_response(outcome: Result<Option<DeviceView>, Seq<char>>) -> ResponseView {
    match outcome {
        Ok(Some(device)) => success(PayloadView::Device(device)),
        Ok(None) => not_found(absent_row()),
        Err(failure) => server_error(failure),
    }
}

/// `GET /api/devices/{id}`, after the lookup.
pub fn device_found(outcome: Result<Option<DeviceModel>, String>) -> (response: Response)
    ensures
        response@ == found_response(device_lookup(outcome)),
{
    match outcome {
        Ok(Some(device)) => Response::success(Payload::Device(device)),
        Ok(None) => Response::not_found("RowNotFound"),
        Err(failure) => Response::server_error(failure),
    }
}

/// What an optional text was read as: a time where the text is there and
/// stands for one.
pub open spec fn time_in(field: Option<Seq<char>>) -> Option<Timestamp> {
    match field {
        Some(text) => timestamp_of(text),
        None => None,
    }
}

/// The stored time, unless the request brought one that could be read.
pub open spec fn time_or(parsed: Option<Timestamp>, stored: Timestamp) -> Timestamp {
    match parsed {
        Some(time) => time,
        None => stored,
    }
}

/// The update of the row `id` that lays the fields of `body` over the
/// stored `device`, given what the two times of `body` were read as. The
/// owning client and the serial number are not written.
pub open spec fn merged_update(
    id: u128,
    body: UpdateDeviceView,
    device: DeviceView,
    upload_data: Option<Timestamp>,
    upload_gps: Option<Timestamp>,
) -> QueryView {
    QueryView::UpdateDevice {
        nickname: text_or(body.nickname, device.nickname),
        imei: text_or(body.imei, device.imei),
        model: text_or(body.model, device.model),
        upload_data: time_or(upload_data, device.upload_data),
        upload_gps: time_or(upload_gps, device.upload_gps),
        status: text_or(body.status, device.status),
        id,
    }
}

/// The step after the lookup that opens an update: 404 where the table
/// holds no such row, 500 with the failure where the lookup itself failed,
/// else the update with the merged fields.
pub open spec fn update_step(
    id: u128,
    body: UpdateDeviceView,
    existing: Result<Option<DeviceView>, Seq<char>>,
) -> StepView {
    match existing {
        Ok(Some(device)) => StepView::Ask(
            merged_update(id, body, device, time_in(body.upload_data), time_in(body.upload_gps)),
        ),
        Ok(None) => StepView::Reply(not_found(absent_row())),
        Err(failure) => StepView::Reply(server_error(failure)),
    }
}

/// Reads a time from a text that may be absent.
pub fn read_time(field: &Option<String>) -> (parsed: Option<Timestamp>)
    ensures
        parsed == time_in(crate::schema::text_view(*field)),
{
    match field {
        Some(text) => parse_timestamp(text.as_str()),
        None => None,
    }
}

/// `PATCH /api/devices/{id}`, from the outcome of the lookup of the row,
/// which `get_device_by_id` asks for, to the update.
pub fn update_device_by_id(
    id: u128,
    body: &UpdateDeviceSchema,
    existing: Result<Option<DeviceModel>, String>,
) -> (step: Step)
    ensures
        step@ == update_step(id, body@, device_lookup(existing)),
{
    match existing {
        Ok(Some(device)) => {
            let upload_data = read_time(&body.upload_data);
            let upload_gps = read_time(&body.upload_gps);
            Step::Ask(merge_device(id, body, device, upload_data, upload_gps))
        },
        Ok(None) => Step::Reply(Response::not_found("RowNotFound")),
        Err(failure) => Step::Reply(Response::server_error(failure)),
    }
}

/// The update that lays the fields of `body` over `device`: a text field
/// that is present replaces the stored one, and so does a time that could be
/// read; `upload_data` and `upload_gps` are what the two times of `body`
/// were read as.
pub fn merge_device(
    id: u128,
    body: &UpdateDeviceSchema,
    device: DeviceModel,
    upload_data: Option<Timestamp>,
    upload_gps: Option<Timestamp>,
) -> (query: Query)
    ensures
        query@ == merged_update(id, body@, device@, upload_data, upload_gps),
{
    Query::UpdateDevice {
        nickname: merge_text(&body.nickname, device.nickname),
        imei: merge_text(&body.imei, device.imei),
        model: merge_text(&body.model, device.model),
        upload_data: match upload_data {
            Some(time) => time,
            None => device.upload_data,
        },
        upload_gps: match upload_gps {
            Some(time) => time,
            None => device.upload_gps,
        },
        status: merge_text(&body.status, device.status),
        id,
    }
}

/// `DELETE /api/devices/{id}`.
pub fn delete_device_by_id(id: u128) -> (query: Query)
    ensures
        query@ == (QueryView::DeleteDevice { id }),
{
    Query::DeleteDevice { id }
}

/// A creation whose owner is not in the table ends with 400, whatever the
/// body holds, and so does one whose owner is no identifier: neither is
/// answered with 500, and neither reaches the insertion.
pub proof fn lemma_unknown_owner_is_bad_request(body: CreateDeviceView, parsed: Option<u128>)
    ensures
        creation_step(body, parsed, Ok(None)) is Reply,
        creation_step(body, parsed, Ok(None))->Reply_0.code == 400,
        parsed is Some ==> creation_step(body, parsed, Ok(None)) == StepView::Reply(
            bad_request("Client not found"@),
        ),
        owner_lookup_step(None)->Reply_0.code == 400,
{
}

/// A lookup that failed is no missing row: on a plain lookup, on the lookup
/// that opens an update and on the lookup of the owner of a new device it
/// is answered with 500 and the failure as message, and nothing is written.
pub proof fn lemma_failed_lookup_is_server_error(
    id: u128,
    updated: UpdateDeviceView,
    created: CreateDeviceView,
    client_id: u128,
    failure: Seq<char>,
)
    ensures
        found_response(Err(failure)) == server_error(failure),
        found_response(Ok(None)).code == 404,
        update_step(id, updated, Err(failure)) == StepView::Reply(server_error(failure)),
        update_step(id, updated, Ok(None)) == StepView::Reply(not_found(absent_row())),
        creation_step(created, Some(client_id), Err(failure)) == StepView::Reply(
            server_error(failure),
        ),
        server_error(failure).code == 500,
{
}

/// A text that is no time is refused by a creation and passed over by an
/// update: as `upload_data` of a creation it gives 400 and no insertion, as
/// `upload_data` of an update it leaves the stored time where it is, and
/// the update is made.
pub proof fn lemma_unreadable_time_on_create_and_update(
    text: Seq<char>,
    created: CreateDeviceView,
    client_id: u128,
    owner: ClientView,
    id: u128,
    updated: UpdateDeviceView,
    stored: DeviceView,
)
    requires
        timestamp_of(text) is None,
        created.upload_data == text,
        updated.upload_data == Some(text),
    ensures
        creation_step(created, Some(client_id), Ok(Some(owner))) == StepView::Reply(
            bad_request("Invalid upload_data datetime format"@),
        ),
        creation_step(created, Some(client_id), Ok(Some(owner)))->Reply_0.code == 400,
        update_step(id, updated, Ok(Some(stored))) is Ask,
        update_step(id, updated, Ok(Some(stored)))->Ask_0 matches QueryView::UpdateDevice {
            upload_data,
            ..
        } && upload_data == stored.upload_data,
{
}

/// The same of `upload_gps`, where the creation's `upload_data` is a time.
pub proof fn lemma_unreadable_gps_time_on_create_and_update(
    text: Seq<char>,
    created: CreateDeviceView,
    client_id: u128,
    owner: ClientView,
    id: u128,
    updated: UpdateDeviceView,
    stored: DeviceView,
)
    requires
        timestamp_of(text) is None,
        timestamp_of(created.upload_data) is Some,
        created.upload_gps == text,
        updated.upload_gps == Some(text),
    ensures
        creation_step(created, Some(client_id), Ok(Some(owner))) == StepView::Reply(
            bad_request("Invalid upload_gps datetime format"@),
        ),
        update_step(id, updated, Ok(Some(stored))) is Ask,
        update_step(id, updated, Ok(Some(stored)))->Ask_0 matches QueryView::UpdateDevice {
            upload_gps,
            ..
        } && upload_gps == stored.upload_gps,
{
}

/// A creation that passes every test inserts a device whose nickname is the
/// owner's name in lower case followed by the serial number, for the client
/// that the body names.
pub proof fn lemma_created_nickname(body: CreateDeviceView, client_id: u128, owner: ClientView)
    requires
        timestamp_of(body.upload_data) is Some,
        timestamp_of(body.upload_gps) is Some,
    ensures
        creation_step(body, Some(client_id), Ok(Some(owner))) is Ask,
        creation_step(body, Some(client_id), Ok(Some(owner)))->Ask_0 matches QueryView::InsertDevice {
            client_id: owner_id,
            nickname,
            serial_number,
            ..
        } && owner_id == client_id && nickname == nickname_of(owner.name, body.serial_number)
            && serial_number == body.serial_number,
{
}

/// An update that brings no field writes every stored value back, to the
/// row it was asked for.
pub proof fn lemma_empty_update_keeps_row(id: u128, stored: DeviceView)
    ensures
        update_step(
            id,
            UpdateDeviceView {
                nickname: None,
                imei: None,
                model: None,
                upload_data: None,
                upload_gps: None,
                status: None,
            },
            Ok(Some(stored)),
        ) == StepView::Ask(
            QueryView::UpdateDevice {
                nickname: stored.nickname,
                imei: stored.imei,
                model: stored.model,
                upload_data: stored.upload_data,
                upload_gps: stored.upload_gps,
                status: stored.status,
                id,
            },
        ),
{
}

} // verus!
