//! The five endpoints under `/api/clients`.

use vstd::prelude::*;
use crate::model::{ClientModel, ClientView, client_views};
use crate::paging::{clamp_i64, limit_of, offset_of, page_of, window};
use crate::query::{Query, QueryView};
use crate::response::{
    Payload,
    PayloadView,
    Response,
    ResponseView,
    Step,
    StepView,
    not_found,
    server_error,
    success,
};
use crate::schema::{CreateClientSchema, FilterOptions, UpdateClientSchema, UpdateClientView};
use crate::services::{absent_row, client_lookup, client_outcome, merge_text, text_or};

verus! {

/// `POST /api/clients`: the insertion of a row with the name and the status
/// of the body, as they are.
pub fn create_client(body: &CreateClientSchema) -> (query: Query)
    ensures
        query@ == (QueryView::InsertClient { name: body@.name, status: body@.status }),
{
    Query::InsertClient { name: body.name.clone(), status: body.status.clone() }
}

/// The response to a creation or an update whose statement has run: 200
/// with the row that the statement returned, or 500 with the failure.
pub open spec fn written_response(outcome: Result<ClientView, Seq<char>>) -> ResponseView {
    match outcome {
        Ok(client) => success(PayloadView::Client(client)),
        Err(failure) => server_error(failure),
    }
}

/// `POST /api/clients`, after the insertion, and `PATCH /api/clients/{id}`,
/// after the update.
pub fn client_written(outcome: Result<ClientModel, String>) -> (response: Response)
    ensures
        response@ == written_response(client_outcome(outcome)),
{
    match outcome {
        Ok(client) => Response::success(Payload::Client(client)),
        Err(failure) => Response::server_error(failure),
    }
}

/// `GET /api/clients`: the rows of the page that the request asks for, the
/// newest first.
pub fn get_all_clients(opts: &FilterOptions) -> (query: Query)
    ensures
        query@ == (QueryView::ListClients {
            limit: clamp_i64(limit_of(*opts)),
            offset: clamp_i64(offset_of(*opts)),
        }),
        page_of(*opts) == 1 ==> query@ == (QueryView::ListClients {
            limit: clamp_i64(limit_of(*opts)),
            offset: 0,
        }),
{
    let window = window(opts);
    Query::ListClients { limit: window.limit, offset: window.offset }
}

/// The response to a list request: 200 with the rows and their number, or
/// 500 with the failure.
pub open spec fn listed_response(outcome: Result<Seq<ClientView>, Seq<char>>) -> ResponseView {
    match outcome {
        Ok(clients) => success(PayloadView::Clients { result: clients.len() as int, clients }),
        Err(failure) => server_error(failure),
    }
}

/// What a list statement gave, as mathematical values.
pub open spec fn clients_outcome(outcome: Result<Vec<ClientModel>, String>) -> Result<
    Seq<ClientView>,
    Seq<char>,
> {
    match outcome {
        Ok(clients) => Ok(client_views(clients@)),
        Err(failure) => Err(failure@),
    }
}

/// `GET /api/clients`, after the statement.
pub fn clients_listed(outcome: Result<Vec<ClientModel>, String>) -> (response: Response)
    ensures
        response@ == listed_response(clients_outcome(outcome)),
{
    match outcome {
        Ok(clients) => Response::success(Payload::Clients { result: clients.len(), clients }),
        Err(failure) => Response::server_error(failure),
    }
}

/// `GET /api/clients/{id}`: the row with that identifier. The same lookup
/// opens `PATCH /api/clients/{id}`.
pub fn get_client_by_id(id: u128) -> (query: Query)
    ensures
        query@ == (QueryView::SelectClient { id }),
{
    Query::SelectClient { id }
}

/// The response to a lookup: 200 with the row, 404 where the table holds no
/// such row, or 500 with the failure where the lookup itself failed.
pub open spec fn found_response(outcome: Result<Option<ClientView>, Seq<char>>) -> ResponseView {
    match outcome {
        Ok(Some(client)) => success(PayloadView::Client(client)),
        Ok(None) => not_found(absent_row()),
        Err(failure) => server_error(failure),
    }
}

/// `GET /api/clients/{id}`, after the lookup.
pub fn client_found(outcome: Result<Option<ClientModel>, String>) -> (response: Response)
    ensures
        response@ == found_response(client_lookup(outcome)),
{
    match outcome {
        Ok(Some(client)) => Response::success(Payload::Client(client)),
        Ok(None) => Response::not_found("RowNotFound"),
        Err(failure) => Response::server_error(failure),
    }
}

/// The step after the lookup that opens an update: 404 where the table
/// holds no such row, 500 with the failure where the lookup itself failed,
/// else the update of the row `id` in which a field that the body brings
/// replaces the stored one and the other stays.
pub open spec fn update_step(
    id: u128,
    body: UpdateClientView,
    existing: Result<Option<ClientView>, Seq<char>>,
) -> StepView {
    match existing {
        Ok(Some(client)) => StepView::Ask(
            QueryView::UpdateClient {
                name: text_or(body.name, client.name),
                status: text_or(body.status, client.status),
                id,
            },
        ),
        Ok(None) => StepView::Reply(not_found(absent_row())),
        Err(failure) => StepView::Reply(server_error(failure)),
    }
}

/// `PATCH /api/clients/{id}`, from the outcome of the lookup of the row,
/// which `get_client_by_id` asks for, to the update.
pub fn update_client_by_id(
    id: u128,
    body: &UpdateClientSchema,
    existing: Result<Option<ClientModel>, String>,
) -> (step: Step)
    ensures
        step@ == update_step(id, body@, client_lookup(existing)),
{
    match existing {
        Ok(Some(client)) => Step::Ask(
            Query::UpdateClient {
                name: merge_text(&body.name, client.name),
                status: merge_text(&body.status, client.status),
                id,
            },
        ),
        Ok(None) => Step::Reply(Response::not_found("RowNotFound")),
        Err(failure) => Step::Reply(Response::server_error(failure)),
    }
}

/// `DELETE /api/clients/{id}`: the removal of the row with that identifier,
/// whether or not there is one.
pub fn delete_client_by_id(id: u128) -> (query: Query)
    ensures
        query@ == (QueryView::DeleteClient { id }),
{
    Query::DeleteClient { id }
}

/// A row reaches the caller of a creation and the caller of a lookup in the
/// same body: for the row that the insertion returned and the lookup of its
/// identifier finds again, the two responses are equal.
pub proof fn lemma_created_row_is_fetched_row(row: ClientView)
    ensures
        written_response(Ok(row)) == found_response(Ok(Some(row))),
        written_response(Ok(row)) == success(PayloadView::Client(row)),
{
}

/// An update that brings a status and no name writes the stored name back
/// and the new status, to the row it was asked for.
pub proof fn lemma_status_alone_keeps_name(id: u128, status: Seq<char>, stored: ClientView)
    ensures
        update_step(id, UpdateClientView { name: None, status: Some(status) }, Ok(Some(stored)))
            == StepView::Ask(QueryView::UpdateClient { name: stored.name, status, id }),
{
}

/// An update that brings no field writes the stored row back.
pub proof fn lemma_empty_update_keeps_row(id: u128, stored: ClientView)
    ensures
        update_step(id, UpdateClientView { name: None, status: None }, Ok(Some(stored)))
            == StepView::Ask(
            QueryView::UpdateClient { name: stored.name, status: stored.status, id },
        ),
{
}

/// Only a row that is not there is answered with 404. A lookup that failed
/// is answered with 500 and the failure as message, on a plain lookup and on
/// the lookup that opens an update, and no update is made.
pub proof fn lemma_failed_lookup_is_server_error(
    id: u128,
    body: UpdateClientView,
    failure: Seq<char>,
)
    ensures
        found_response(Err(failure)) == server_error(failure),
        found_response(Err(failure)).code == 500,
        found_response(Ok(None)).code == 404,
        update_step(id, body, Err(failure)) == StepView::Reply(server_error(failure)),
        update_step(id, body, Ok(None)) == StepView::Reply(not_found(absent_row())),
{
}

} // verus!
