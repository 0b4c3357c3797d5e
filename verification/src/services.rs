//! The endpoints. Each is split where the persistence layer does its work:
//! what stands before a statement returns the `Query` to run, what stands
//! after it takes the outcome, `Ok` with the rows or `Err` with the failure
//! as text. The lookup of one row has three outcomes: the row, `Ok(None)`
//! where the table holds no such row, and `Err` where the lookup itself
//! failed. Only the second is answered with 404.

use vstd::prelude::*;
use vstd::string::StringExecFns;
use crate::model::{ClientModel, ClientView, DeviceModel, DeviceView};
use crate::response::{Payload, PayloadView, Response, ResponseView, no_content, server_error, success};

pub mod clients;
pub mod devices;

verus! {

/// What the writing of one client row gave, as mathematical values.
pub open spec fn client_outcome(outcome: Result<ClientModel, String>) -> Result<
    ClientView,
    Seq<char>,
> {
    match outcome {
        Ok(client) => Ok(client@),
        Err(failure) => Err(failure@),
    }
}

/// What the writing of one device row gave, as mathematical values.
pub open spec fn device_outcome(outcome: Result<DeviceModel, String>) -> Result<
    DeviceView,
    Seq<char>,
> {
    match outcome {
        Ok(device) => Ok(device@),
        Err(failure) => Err(failure@),
    }
}

/// What the lookup of one client row gave, as mathematical values: the row,
/// `None` where the table holds no such row, or the failure of the lookup
/// itself.
pub open spec fn client_lookup(outcome: Result<Option<ClientModel>, String>) -> Result<
    Option<ClientView>,
    Seq<char>,
> {
    match outcome {
        Ok(Some(client)) => Ok(Some(client@)),
        Ok(None) => Ok(None),
        Err(failure) => Err(failure@),
    }
}

/// What the lookup of one device row gave, as mathematical values.
pub open spec fn device_lookup(outcome: Result<Option<DeviceModel>, String>) -> Result<
    Option<DeviceView>,
    Seq<char>,
> {
    match outcome {
        Ok(Some(device)) => Ok(Some(device@)),
        Ok(None) => Ok(None),
        Err(failure) => Err(failure@),
    }
}

/// The message of the 404 that answers the lookup of a row that is not
/// there.
pub open spec fn absent_row() -> Seq<char> {
    "RowNotFound"@
}

/// The stored text, unless the request brings another.
pub open spec fn text_or(field: Option<Seq<char>>, stored: Seq<char>) -> Seq<char> {
    match field {
        Some(text) => text,
        None => stored,
    }
}

/// A copy of the request's text where it brings one, else the stored text.
pub fn merge_text(field: &Option<String>, stored: String) -> (merged: String)
    ensures
        merged@ == text_or(crate::schema::text_view(*field), stored@),
{
    match field {
        Some(text) => text.clone(),
        None => stored,
    }
}

/// What a deletion gave, as mathematical values: the number of rows that the
/// statement removed, or the failure.
pub open spec fn removal_outcome(outcome: Result<u64, String>) -> Result<u64, Seq<char>> {
    match outcome {
        Ok(rows) => Ok(rows),
        Err(failure) => Err(failure@),
    }
}

/// The response to a deletion: 204 whatever the number of rows that were
/// removed, none included, or 500 with the failure.
pub open spec fn deleted_response(outcome: Result<u64, Seq<char>>) -> ResponseView {
    match outcome {
        Ok(_) => no_content(),
        Err(failure) => server_error(failure),
    }
}

/// `DELETE /api/clients/{id}` and `DELETE /api/devices/{id}`, after the
/// statement.
pub fn row_deleted(outcome: Result<u64, String>) -> (response: Response)
    ensures
        response@ == deleted_response(removal_outcome(outcome)),
{
    match outcome {
        Ok(_) => Response::no_content(),
        Err(failure) => Response::server_error(failure),
    }
}

/// The fixed answer of the liveness probe.
pub open spec fn health_response() -> ResponseView {
    success(PayloadView::Message("Health check: API is up and running smoothly."@))
}

/// `GET /api/healthchecker`.
pub fn health_checker() -> (response: Response)
    ensures
        response@ == health_response(),
{
    Response::success(
        Payload::Message(String::from_str("Health check: API is up and running smoothly.")),
    )
}

/// A deletion that removed nothing is answered as one that removed a row:
/// with 204, never 404.
pub proof fn lemma_deleting_nothing_succeeds(rows: u64)
    ensures
        deleted_response(Ok(rows)) == no_content(),
        deleted_response(Ok(0)).code == 204,
        deleted_response(Ok(rows)).body is None,
{
}

/// The four request methods that the service answers.
#[derive(Clone, Copy, Debug, PartialEq, Eq)]
pub enum Method {
    Get,
    Post,
    Patch,
    Delete,
}

/// The eleven endpoints.
#[derive(Clone, Copy, Debug, PartialEq, Eq)]
pub enum Endpoint {
    HealthChecker,
    CreateClient,
    GetAllClients,
    GetClientById,
    UpdateClientById,
    DeleteClientById,
    CreateDevice,
    GetAllDevices,
    GetDeviceById,
    UpdateDeviceById,
    DeleteDeviceById,
}

/// One line of the routing table. In a path, `{id}` stands for the
/// identifier of a row.
#[derive(Clone, Copy, Debug, PartialEq, Eq)]
pub struct Route {
    pub method: Method,
    pub path: &'static str,
    pub endpoint: Endpoint,
}

pub struct RouteView {
    pub method: Method,
    pub path: Seq<char>,
    pub endpoint: Endpoint,
}

impl View for Route {
    type V = RouteView;

    open spec fn view(&self) -> RouteView {
        RouteView { method: self.method, path: self.path@, endpoint: self.endpoint }
    }
}

/// The routing table: which endpoint answers which method on which path.
pub open spec fn route_table() -> Seq<RouteView> {
    seq![
        RouteView {
            method: Method::Get,
            path: "/api/healthchecker"@,
            endpoint: Endpoint::HealthChecker,
        },
        RouteView { method: Method::Post, path: "/api/clients"@, endpoint: Endpoint::CreateClient },
        RouteView { method: Method::Get, path: "/api/clients"@, endpoint: Endpoint::GetAllClients },
        RouteView {
            method: Method::Get,
            path: "/api/clients/{id}"@,
            endpoint: Endpoint::GetClientById,
        },
        RouteView {
            method: Method::Patch,
            path: "/api/clients/{id}"@,
            endpoint: Endpoint::UpdateClientById,
        },
        RouteView {
            method: Method::Delete,
            path: "/api/clients/{id}"@,
            endpoint: Endpoint::DeleteClientById,
        },
        RouteView { method: Method::Post, path: "/api/devices"@, endpoint: Endpoint::CreateDevice },
        RouteView { method: Method::Get, path: "/api/devices"@, endpoint: Endpoint::GetAllDevices },
        RouteView {
            method: Method::Get,
            path: "/api/devices/{id}"@,
            endpoint: Endpoint::GetDeviceById,
        },
        RouteView {
            method: Method::Patch,
            path: "/api/devices/{id}"@,
            endpoint: Endpoint::UpdateDeviceById,
        },
        RouteView {
            method: Method::Delete,
            path: "/api/devices/{id}"@,
            endpoint: Endpoint::DeleteDeviceById,
        },
    ]
}

/// The views of a list of routes, in order.
pub open spec fn route_views(routes: Seq<Route>) -> Seq<RouteView> {
    Seq::new(routes.len(), |i: int| routes[i]@)
}

/// The routing table, for the program to register with its HTTP server.
pub fn config() -> (routes: Vec<Route>)
    ensures
        route_views(routes@) == route_table(),
{
    let mut routes: Vec<Route> = Vec::new();
    routes.push(
        Route { method: Method::Get, path: "/api/healthchecker", endpoint: Endpoint::HealthChecker },
    );
    routes.push(
        Route { method: Method::Post, path: "/api/clients", endpoint: Endpoint::CreateClient },
    );
    routes.push(
        Route { method: Method::Get, path: "/api/clients", endpoint: Endpoint::GetAllClients },
    );
    routes.push(
        Route { method: Method::Get, path: "/api/clients/{id}", endpoint: Endpoint::GetClientById },
    );
    routes.push(
        Route {
            method: Method::Patch,
            path: "/api/clients/{id}",
            endpoint: Endpoint::UpdateClientById,
        },
    );
    routes.push(
        Route {
            method: Method::Delete,
            path: "/api/clients/{id}",
            endpoint: Endpoint::DeleteClientById,
        },
    );
    routes.push(
        Route { method: Method::Post, path: "/api/devices", endpoint: Endpoint::CreateDevice },
    );
    routes.push(
        Route { method: Method::Get, path: "/api/devices", endpoint: Endpoint::GetAllDevices },
    );
    routes.push(
        Route { method: Method::Get, path: "/api/devices/{id}", endpoint: Endpoint::GetDeviceById },
    );
    routes.push(
        Route {
            method: Method::Patch,
            path: "/api/devices/{id}",
            endpoint: Endpoint::UpdateDeviceById,
        },
    );
    routes.push(
        Route {
            method: Method::Delete,
            path: "/api/devices/{id}",
            endpoint: Endpoint::DeleteDeviceById,
        },
    );
    assert(route_views(routes@) =~= route_table());
    routes
}

} // verus!
