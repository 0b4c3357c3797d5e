//! The bodies and query strings that requests carry.

use vstd::prelude::*;

verus! {

/// What an optional text field holds, as a mathematical value.
pub open spec fn text_view(field: Option<String>) -> Option<Seq<char>> {
    match field {
        Some(text) => Some(text@),
        None => None,
    }
}

/// The body of a request that creates a client.
#[derive(Clone, Debug, PartialEq, Eq)]
pub struct CreateClientSchema {
    pub name: String,
    pub status: String,
}

pub struct CreateClientView {
    pub name: Seq<char>,
    pub status: Seq<char>,
}

impl View for CreateClientSchema {
    type V = CreateClientView;

    open spec fn view(&self) -> CreateClientView {
        CreateClientView { name: self.name@, status: self.status@ }
    }
}

/// The body of a request that changes a client. A field that is absent
/// leaves the stored value as it is.
#[derive(Clone, Debug, PartialEq, Eq)]
pub struct UpdateClientSchema {
    pub name: Option<String>,
    pub status: Option<String>,
}

pub struct UpdateClientView {
    pub name: Option<Seq<char>>,
    pub status: Option<Seq<char>>,
}

impl View for UpdateClientSchema {
    type V = UpdateClientView;

    open spec fn view(&self) -> UpdateClientView {
        UpdateClientView { name: text_view(self.name), status: text_view(self.status) }
    }
}

/// The body of a request that creates a device. The identifier and the two
/// times arrive as text and are parsed by the handler.
#[derive(Clone, Debug, PartialEq, Eq)]
pub struct CreateDeviceSchema {
    pub client_id: String,
    pub imei: String,
    pub model: String,
    pub serial_number: String,
    pub upload_data: String,
    pub upload_gps: String,
    pub status: String,
}

pub struct CreateDeviceView {
    pub client_id: Seq<char>,
    pub imei: Seq<char>,
    pub model: Seq<char>,
    pub serial_number: Seq<char>,
    pub upload_data: Seq<char>,
    pub upload_gps: Seq<char>,
    pub status: Seq<char>,
}

impl View for CreateDeviceSchema {
    type V = CreateDeviceView;

    open spec fn view(&self) -> CreateDeviceView {
        CreateDeviceView {
            client_id: self.client_id@,
            imei: self.imei@,
            model: self.model@,
            serial_number: self.serial_number@,
            upload_data: self.upload_data@,
            upload_gps: self.upload_gps@,
            status: self.status@,
        }
    }
}

/// The body of a request that changes a device. The owning client and the
/// serial number are not among the fields: they cannot be changed.
#[derive(Clone, Debug, PartialEq, Eq)]
pub struct UpdateDeviceSchema {
    pub nickname: Option<String>,
    pub imei: Option<String>,
    pub model: Option<String>,
    pub upload_data: Option<String>,
    pub upload_gps: Option<String>,
    pub status: Option<String>,
}

pub struct UpdateDeviceView {
    pub nickname: Option<Seq<char>>,
    pub imei: Option<Seq<char>>,
    pub model: Option<Seq<char>>,
    pub upload_data: Option<Seq<char>>,
    pub upload_gps: Option<Seq<char>>,
    pub status: Option<Seq<char>>,
}

impl View for UpdateDeviceSchema {
    type V = UpdateDeviceView;

    open spec fn view(&self) -> UpdateDeviceView {
        UpdateDeviceView {
            nickname: text_view(self.nickname),
            imei: text_view(self.imei),
            model: text_view(self.model),
            upload_data: text_view(self.upload_data),
            upload_gps: text_view(self.upload_gps),
            status: text_view(self.status),
        }
    }
}

/// The query string of a list request.
#[derive(Clone, Copy, Debug, PartialEq, Eq)]
pub struct FilterOptions {
    pub limit: Option<usize>,
    pub page: Option<usize>,
}

} // verus!
