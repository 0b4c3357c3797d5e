//! The statements that the handlers ask the persistence layer to run.

use vstd::prelude::*;
use crate::model::Timestamp;

verus! {

/// One parameterised statement with the values of its parameters. The
/// fields of a variant are the parameters in the order of their
/// placeholders, `$1` first.
#[derive(Clone, Debug, PartialEq, Eq)]
pub enum Query {
    InsertClient { name: String, status: String },
    ListClients { limit: i64, offset: i64 },
    SelectClient { id: u128 },
    UpdateClient { name: String, status: String, id: u128 },
    DeleteClient { id: u128 },
    InsertDevice {
        client_id: u128,
        nickname: String,
        imei: String,
        model: String,
        serial_number: String,
        upload_data: Timestamp,
        upload_gps: Timestamp,
        status: String,
    },
    ListDevices { limit: i64, offset: i64 },
    SelectDevice { id: u128 },
    UpdateDevice {
        nickname: String,
        imei: String,
        model: String,
        upload_data: Timestamp,
        upload_gps: Timestamp,
        status: String,
        id: u128,
    },
    DeleteDevice { id: u128 },
}

/// What a `Query` holds, as mathematical values.
pub enum QueryView {
    InsertClient { name: Seq<char>, status: Seq<char> },
    ListClients { limit: int, offset: int },
    SelectClient { id: u128 },
    UpdateClient { name: Seq<char>, status: Seq<char>, id: u128 },
    DeleteClient { id: u128 },
    InsertDevice {
        client_id: u128,
        nickname: Seq<char>,
        imei: Seq<char>,
        model: Seq<char>,
        serial_number: Seq<char>,
        upload_data: Timestamp,
        upload_gps: Timestamp,
        status: Seq<char>,
    },
    ListDevices { limit: int, offset: int },
    SelectDevice { id: u128 },
    UpdateDevice {
        nickname: Seq<char>,
        imei: Seq<char>,
        model: Seq<char>,
        upload_data: Timestamp,
        upload_gps: Timestamp,
        status: Seq<char>,
        id: u128,
    },
    DeleteDevice { id: u128 },
}

impl View for Query {
    type V = QueryView;

    open spec fn view(&self) -> QueryView {
        match *self {
            Query::InsertClient { name, status } => QueryView::InsertClient {
                name: name@,
                status: status@,
            },
            Query::ListClients { limit, offset } => QueryView::ListClients {
                limit: limit as int,
                offset: offset as int,
            },
            Query::SelectClient { id } => QueryView::SelectClient { id },
            Query::UpdateClient { name, status, id } => QueryView::UpdateClient {
                name: name@,
                status: status@,
                id,
            },
            Query::DeleteClient { id } => QueryView::DeleteClient { id },
            Query::InsertDevice {
                client_id,
                nickname,
                imei,
                model,
                serial_number,
                upload_data,
                upload_gps,
                status,
            } => QueryView::InsertDevice {
                client_id,
                nickname: nickname@,
                imei: imei@,
                model: model@,
                serial_number: serial_number@,
                upload_data,
                upload_gps,
                status: status@,
            },
            Query::ListDevices { limit, offset } => QueryView::ListDevices {
                limit: limit as int,
                offset: offset as int,
            },
            Query::SelectDevice { id } => QueryView::SelectDevice { id },
            Query::UpdateDevice { nickname, imei, model, upload_data, upload_gps, status, id } =>
                QueryView::UpdateDevice {
                    nickname: nickname@,
                    imei: imei@,
                    model: model@,
                    upload_data,
                    upload_gps,
                    status: status@,
                    id,
                },
            Query::DeleteDevice { id } => QueryView::DeleteDevice { id },
        }
    }
}

/// The text of the statement that a query stands for.
pub open spec fn statement_text(query: QueryView) -> Seq<char> {
    match query {
        QueryView::InsertClient { .. } =>
            "INSERT INTO clients (name, status) VALUES ($1, $2) RETURNING *"@,
        QueryView::ListClients { .. } =>
            "SELECT * FROM clients ORDER BY created_at DESC LIMIT $1 OFFSET $2"@,
        QueryView::SelectClient { .. } => "SELECT * FROM clients WHERE id = $1"@,
        QueryView::UpdateClient { .. } =>
            "UPDATE clients SET name = $1, status = $2 WHERE id = $3 RETURNING *"@,
        QueryView::DeleteClient { .. } => "DELETE FROM clients WHERE id = $1"@,
        QueryView::InsertDevice { .. } =>
            "INSERT INTO devices (client_id, nickname, imei, model, serial_number, upload_data, upload_gps, status) VALUES ($1, $2, $3, $4, $5, $6, $7, $8) RETURNING *"@,
        QueryView::ListDevices { .. } =>
            "SELECT * FROM devices ORDER BY created_at DESC LIMIT $1 OFFSET $2"@,
        QueryView::SelectDevice { .. } => "SELECT * FROM devices WHERE id = $1"@,
        QueryView::UpdateDevice { .. } =>
            "UPDATE devices SET nickname = $1, imei = $2, model = $3, upload_data = $4, upload_gps = $5, status = $6 WHERE id = $7 RETURNING *"@,
        QueryView::DeleteDevice { .. } => "DELETE FROM devices WHERE id = $1"@,
    }
}

impl Query {
    /// The text of the statement, with `$1`, `$2`, ... where the parameters
    /// go.
    pub fn statement(&self) -> (text: &'static str)
        ensures
            text@ == statement_text(self@),
    {
        match self {
            Query::InsertClient { .. } =>
                "INSERT INTO clients (name, status) VALUES ($1, $2) RETURNING *",
            Query::ListClients { .. } =>
                "SELECT * FROM clients ORDER BY created_at DESC LIMIT $1 OFFSET $2",
            Query::SelectClient { .. } => "SELECT * FROM clients WHERE id = $1",
            Query::UpdateClient { .. } =>
                "UPDATE clients SET name = $1, status = $2 WHERE id = $3 RETURNING *",
            Query::DeleteClient { .. } => "DELETE FROM clients WHERE id = $1",
            Query::InsertDevice { .. } =>
                "INSERT INTO devices (client_id, nickname, imei, model, serial_number, upload_data, upload_gps, status) VALUES ($1, $2, $3, $4, $5, $6, $7, $8) RETURNING *",
            Query::ListDevices { .. } =>
                "SELECT * FROM devices ORDER BY created_at DESC LIMIT $1 OFFSET $2",
            Query::SelectDevice { .. } => "SELECT * FROM devices WHERE id = $1",
            Query::UpdateDevice { .. } =>
                "UPDATE devices SET nickname = $1, imei = $2, model = $3, upload_data = $4, upload_gps = $5, status = $6 WHERE id = $7 RETURNING *",
            Query::DeleteDevice { .. } => "DELETE FROM devices WHERE id = $1",
        }
    }
}

/// The value of one parameter of a statement.
#[derive(Clone, Debug, PartialEq, Eq)]
pub enum Parameter {
    Text(String),
    Number(i64),
    Identifier(u128),
    Time(Timestamp),
}

pub enum ParameterView {
    Text(Seq<char>),
    Number(int),
    Identifier(u128),
    Time(Timestamp),
}

impl View for Parameter {
    type V = ParameterView;

    open spec fn view(&self) -> ParameterView {
        match *self {
            Parameter::Text(text) => ParameterView::Text(text@),
            Parameter::Number(number) => ParameterView::Number(number as int),
            Parameter::Identifier(id) => ParameterView::Identifier(id),
            Parameter::Time(time) => ParameterView::Time(time),
        }
    }
}

/// The views of a list of parameters, in order.
pub open spec fn parameter_views(parameters: Seq<Parameter>) -> Seq<ParameterView> {
    Seq::new(parameters.len(), |i: int| parameters[i]@)
}

/// The values that a statement takes, the value for `$1` first.
pub open spec fn parameters_of(query: QueryView) -> Seq<ParameterView> {
    match query {
        QueryView::InsertClient { name, status } => seq![
            ParameterView::Text(name),
            ParameterView::Text(status),
        ],
        QueryView::ListClients { limit, offset } => seq![
            ParameterView::Number(limit),
            ParameterView::Number(offset),
        ],
        QueryView::SelectClient { id } => seq![ParameterView::Identifier(id)],
        QueryView::UpdateClient { name, status, id } => seq![
            ParameterView::Text(name),
            ParameterView::Text(status),
            ParameterView::Identifier(id),
        ],
        QueryView::DeleteClient { id } => seq![ParameterView::Identifier(id)],
        QueryView::InsertDevice {
            client_id,
            nickname,
            imei,
            model,
            serial_number,
            upload_data,
            upload_gps,
            status,
        } => seq![
            ParameterView::Identifier(client_id),
            ParameterView::Text(nickname),
            ParameterView::Text(imei),
            ParameterView::Text(model),
            ParameterView::Text(serial_number),
            ParameterView::Time(upload_data),
            ParameterView::Time(upload_gps),
            ParameterView::Text(status),
        ],
        QueryView::ListDevices { limit, offset } => seq![
            ParameterView::Number(limit),
            ParameterView::Number(offset),
        ],
        QueryView::SelectDevice { id } => seq![ParameterView::Identifier(id)],
        QueryView::UpdateDevice { nickname, imei, model, upload_data, upload_gps, status, id } =>
            seq![
            ParameterView::Text(nickname),
            ParameterView::Text(imei),
            ParameterView::Text(model),
            ParameterView::Time(upload_data),
            ParameterView::Time(upload_gps),
            ParameterView::Text(status),
            ParameterView::Identifier(id),
        ],
        QueryView::DeleteDevice { id } => seq![ParameterView::Identifier(id)],
    }
}

impl Query {
    /// The values to bind to the statement, the value for `$1` first.
    pub fn parameters(&self) -> (parameters: Vec<Parameter>)
        ensures
            parameter_views(parameters@) == parameters_of(self@),
    {
        let mut parameters: Vec<Parameter> = Vec::new();
        match self {
            Query::InsertClient { name, status } => {
                parameters.push(Parameter::Text(name.clone()));
                parameters.push(Parameter::Text(status.clone()));
            },
            Query::ListClients { limit, offset } | Query::ListDevices { limit, offset } => {
                parameters.push(Parameter::Number(*limit));
                parameters.push(Parameter::Number(*offset));
            },
            Query::SelectClient { id }
            | Query::DeleteClient { id }
            | Query::SelectDevice { id }
            | Query::DeleteDevice { id } => {
                parameters.push(Parameter::Identifier(*id));
            },
            Query::UpdateClient { name, status, id } => {
                parameters.push(Parameter::Text(name.clone()));
                parameters.push(Parameter::Text(status.clone()));
                parameters.push(Parameter::Identifier(*id));
            },
            Query::InsertDevice {
                client_id,
                nickname,
                imei,
                model,
                serial_number,
                upload_data,
                upload_gps,
                status,
            } => {
                parameters.push(Parameter::Identifier(*client_id));
                parameters.push(Parameter::Text(nickname.clone()));
                parameters.push(Parameter::Text(imei.clone()));
                parameters.push(Parameter::Text(model.clone()));
                parameters.push(Parameter::Text(serial_number.clone()));
                parameters.push(Parameter::Time(*upload_data));
                parameters.push(Parameter::Time(*upload_gps));
                parameters.push(Parameter::Text(status.clone()));
            },
            Query::UpdateDevice { nickname, imei, model, upload_data, upload_gps, status, id } => {
                parameters.push(Parameter::Text(nickname.clone()));
                parameters.push(Parameter::Text(imei.clone()));
                parameters.push(Parameter::Text(model.clone()));
                parameters.push(Parameter::Time(*upload_data));
                parameters.push(Parameter::Time(*upload_gps));
                parameters.push(Parameter::Text(status.clone()));
                parameters.push(Parameter::Identifier(*id));
            },
        }
        assert(parameter_views(parameters@) =~= parameters_of(self@));
        parameters
    }
}

} // verus!
