//! Routing decisions of the UI gateway.
//!
//! The gateway sits between an external UI and the node's internal
//! subsystems. Every carrier message is dispatched by the pure decision
//! function here: it maps a message to the action the surrounding actor
//! shell must perform (forward to a subsystem, trigger shutdown, or marshal
//! a response out to the websocket). The shell performs the sends; the
//! decision itself is verified.

use vstd::prelude::*;
use vstd::string::StringExecFns;

verus! {

/// Financial totals reported to the UI.
#[derive(Debug, Clone, PartialEq, Eq)]
pub struct FinancialStatisticsMessage {
    pub pending_credit: i64,
    pub pending_debt: i64,
}

/// A control-plane message carried between the UI and the node.
#[derive(Debug, Clone, PartialEq, Eq)]
pub enum UiMessage {
    SetWalletPassword(String),
    GetFinancialStatisticsMessage,
    ShutdownMessage,
    GetNodeDescriptor,
    SetGasPrice(String),
    NodeDescriptor(String),
    SetWalletPasswordResponse(bool),
    FinancialStatisticsResponse(FinancialStatisticsMessage),
    SetGasPriceResponse(bool),
    NeighborhoodDotGraphResponse(String),
    NeighborhoodDotGraphRequest,
}

/// The action the gateway shell must perform for one carrier message.
#[derive(Debug, Clone, PartialEq, Eq)]
pub enum UiAction {
    /// Forward the wallet password to the blockchain bridge.
    SendWalletPassword { client_id: u64, password: String },
    /// Ask the accountant for financial statistics.
    RequestFinancialStatistics { client_id: u64 },
    /// Trigger the shutdown supervisor.
    TriggerShutdown,
    /// Re-enqueue the node descriptor as a response to the asking client.
    RespondWithNodeDescriptor { client_id: u64, descriptor: String },
    /// Forward the gas price to the blockchain bridge.
    SendGasPrice { client_id: u64, gas_price: String },
    /// Marshal the response message and send it to the websocket client.
    MarshalToWebsocket { client_id: u64, message: UiMessage },
    /// Ask the neighborhood for its dot-graph rendering.
    RequestDotGraph { client_id: u64 },
}

/// The messages that flow outward to the UI: each is marshalled and handed
/// to the websocket supervisor.
pub open spec fn is_outbound_response(message: UiMessage) -> bool {
    ||| message is NodeDescriptor
    ||| message is SetWalletPasswordResponse
    ||| message is FinancialStatisticsResponse
    ||| message is SetGasPriceResponse
    ||| message is NeighborhoodDotGraphResponse
}

/// The routing relation: which action belongs to which carrier message.
pub open spec fn spec_routed(
    client_id: u64,
    message: UiMessage,
    node_descriptor: Seq<char>,
    action: UiAction,
) -> bool {
    match message {
        UiMessage::SetWalletPassword(password) => action matches UiAction::SendWalletPassword {
            client_id: c,
            password: p,
        } && c == client_id && p@ == password@,
        UiMessage::GetFinancialStatisticsMessage => action
            == UiAction::RequestFinancialStatistics { client_id },
        UiMessage::ShutdownMessage => action == UiAction::TriggerShutdown,
        UiMessage::GetNodeDescriptor => action matches UiAction::RespondWithNodeDescriptor {
            client_id: c,
            descriptor: d,
        } && c == client_id && d@ == node_descriptor,
        UiMessage::SetGasPrice(gas_price) => action matches UiAction::SendGasPrice {
            client_id: c,
            gas_price: g,
        } && c == client_id && g@ == gas_price@,
        UiMessage::NeighborhoodDotGraphRequest => action == UiAction::RequestDotGraph {
            client_id,
        },
        _ => action matches UiAction::MarshalToWebsocket { client_id: c, message: m } && c
            == client_id && m == message,
    }
}

/// Decides the action for one carrier message. Requests are forwarded to the
/// subsystem that owns them; every outbound response is marshalled to the
/// websocket client that asked.
pub fn route_ui_message(client_id: u64, message: UiMessage, node_descriptor: &str) -> (action:
    UiAction)
    ensures
        spec_routed(client_id, message, node_descriptor@, action),
        is_outbound_response(message) <==> action is MarshalToWebsocket,
{
    match message {
        UiMessage::SetWalletPassword(password) => UiAction::SendWalletPassword {
            client_id,
            password,
        },
        UiMessage::GetFinancialStatisticsMessage => UiAction::RequestFinancialStatistics {
            client_id,
        },
        UiMessage::ShutdownMessage => UiAction::TriggerShutdown,
        UiMessage::GetNodeDescriptor => UiAction::RespondWithNodeDescriptor {
            client_id,
            descriptor: String::from_str(node_descriptor),
        },
        UiMessage::SetGasPrice(gas_price) => UiAction::SendGasPrice { client_id, gas_price },
        UiMessage::NeighborhoodDotGraphRequest => UiAction::RequestDotGraph { client_id },
        other => UiAction::MarshalToWebsocket { client_id, message: other },
    }
}

/// Decides what to do with a raw message unmarshalled from an external UI:
/// a well-formed message is re-sent on the carrier under the same client,
/// and a malformed one is ignored.
pub fn accept_from_ui(client_id: u64, unmarshalled: Result<UiMessage, String>) -> (r: Option<
    (u64, UiMessage),
>)
    ensures
        unmarshalled matches Ok(message) ==> r == Some((client_id, message)),
        unmarshalled is Err ==> r is None,
{
    match unmarshalled {
        Ok(message) => Some((client_id, message)),
        Err(_) => None,
    }
}

} // verus!
