//! The rows of the two tables.

use vstd::prelude::*;

verus! {

/// A point in time on the UTC time line: whole seconds since the start of
/// 1970 and the nanoseconds into that second. Within a leap second the
/// seconds stay at the second before it and `nanos` runs on from
/// 1,000,000,000 to 1,999,999,999.
#[derive(Clone, Copy, Debug, PartialEq, Eq)]
pub struct Timestamp {
    pub seconds: i64,
    pub nanos: u32,
}

/// A row of `clients`. `id` is the identifier's 128 bits, most significant
/// byte first.
#[derive(Clone, Debug, PartialEq, Eq)]
pub struct ClientModel {
    pub id: u128,
    pub name: String,
    pub status: String,
    pub created_at: Option<Timestamp>,
}

/// What a `ClientModel` holds, as mathematical values.
pub struct ClientView {
    pub id: u128,
    pub name: Seq<char>,
    pub status: Seq<char>,
    pub created_at: Option<Timestamp>,
}

impl View for ClientModel {
    type V = ClientView;

    open spec fn view(&self) -> ClientView {
        ClientView {
            id: self.id,
            name: self.name@,
            status: self.status@,
            created_at: self.created_at,
        }
    }
}

/// A row of `devices`.
#[derive(Clone, Debug, PartialEq, Eq)]
pub struct DeviceModel {
    pub id: u128,
    pub client_id: u128,
    pub nickname: String,
    pub imei: String,
    pub model: String,
    pub serial_number: String,
    pub upload_data: Timestamp,
    pub upload_gps: Timestamp,
    pub status: String,
    pub created_at: Option<Timestamp>,
}

/// What a `DeviceModel` holds, as mathematical values.
pub struct DeviceView {
    pub id: u128,
    pub client_id: u128,
    pub nickname: Seq<char>,
    pub imei: Seq<char>,
    pub model: Seq<char>,
    pub serial_number: Seq<char>,
    pub upload_data: Timestamp,
    pub upload_gps: Timestamp,
    pub status: Seq<char>,
    pub created_at: Option<Timestamp>,
}

impl View for DeviceModel {
    type V = DeviceView;

    open spec fn view(&self) -> DeviceView {
        DeviceView {
            id: self.id,
            client_id: self.client_id,
            nickname: self.nickname@,
            imei: self.imei@,
            model: self.model@,
            serial_number: self.serial_number@,
            upload_data: self.upload_data,
            upload_gps: self.upload_gps,
            status: self.status@,
            created_at: self.created_at,
        }
    }
}

/// The views of a list of client rows, in order.
pub open spec fn client_views(rows: Seq<ClientModel>) -> Seq<ClientView> {
    Seq::new(rows.len(), |i: int| rows[i]@)
}

/// The views of a list of device rows, in order.
pub open spec fn device_views(rows: Seq<DeviceModel>) -> Seq<DeviceView> {
    Seq::new(rows.len(), |i: int| rows[i]@)
}

} // verus!
