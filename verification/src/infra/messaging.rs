use vstd::prelude::*;

use crate::errors::{AppError, ErrorKind};
use crate::text::concat2;

verus! {

broadcast use vstd::string::group_string_axioms;

/// Whether a publish or subscribe goes ahead: with a channel it does;
/// without one it is skipped when messaging is switched off, and it is a
/// server error when messaging is switched on.
pub fn channel_gate(has_channel: bool, enabled: bool) -> (r: Result<bool, AppError>)
    ensures
        has_channel ==> r == Ok::<bool, AppError>(true),
        !has_channel && !enabled ==> r == Ok::<bool, AppError>(false),
        !has_channel && enabled ==> (r matches Err(e) && e@ == (ErrorKind::Internal,
            "RabbitMQ channel not initialized"@)),
{
    if has_channel {
        Ok(true)
    } else if enabled {
        Err(AppError::with_text(ErrorKind::Internal, "RabbitMQ channel not initialized"))
    } else {
        Ok(false)
    }
}

/// How a publish or subscribe gets its channel.
#[derive(Debug, Clone, Copy, PartialEq, Eq)]
pub enum ChannelPlan {
    /// Messaging is switched off: nothing is sent or consumed.
    Skip,
    /// The channel is connected: use it.
    Use,
    /// The channel lost its connection: connect again, then use the new
    /// channel.
    Reconnect,
}

/// The channel decision of a publish or subscribe: a connected channel is
/// used and one that lost its connection is opened again; without any
/// channel the operation is skipped when messaging is switched off, and is
/// a server error when it is switched on.
pub fn channel_plan(has_channel: bool, connected: bool, enabled: bool) -> (r: Result<
    ChannelPlan,
    AppError,
>)
    ensures
        has_channel && connected ==> r == Ok::<ChannelPlan, AppError>(ChannelPlan::Use),
        has_channel && !connected ==> r == Ok::<ChannelPlan, AppError>(ChannelPlan::Reconnect),
        !has_channel && !enabled ==> r == Ok::<ChannelPlan, AppError>(ChannelPlan::Skip),
        !has_channel && enabled ==> (r matches Err(e) && e@ == (ErrorKind::Internal,
            "RabbitMQ channel not initialized"@)),
{
    match channel_gate(has_channel, enabled) {
        Ok(true) => if connected {
            Ok(ChannelPlan::Use)
        } else {
            Ok(ChannelPlan::Reconnect)
        },
        Ok(false) => Ok(ChannelPlan::Skip),
        Err(e) => Err(e),
    }
}

/// The messaging operations that can fail.
#[derive(Debug, Clone, Copy, PartialEq, Eq)]
pub enum MessagingFailure {
    Connect,
    CreateChannel,
    DeclareQueue,
    Serialize,
    SendPublish,
    ConfirmPublish,
    Consume,
}

pub open spec fn messaging_failure_prefix(kind: MessagingFailure) -> Seq<char> {
    match kind {
        MessagingFailure::Connect => "Failed to connect to RabbitMQ: "@,
        MessagingFailure::CreateChannel => "Failed to create RabbitMQ channel: "@,
        MessagingFailure::DeclareQueue => "Failed to assert queue: "@,
        MessagingFailure::Serialize => "Failed to serialize message: "@,
        MessagingFailure::SendPublish => "Failed to send publish command: "@,
        MessagingFailure::ConfirmPublish => "Failed to confirm publish: "@,
        MessagingFailure::Consume => "Failed to basic_consume: "@,
    }
}

/// The server error for a failed messaging operation, given the text of the
/// broker's error.
pub fn messaging_error(kind: MessagingFailure, detail: &str) -> (r: AppError)
    ensures
        r@ == (ErrorKind::Internal, messaging_failure_prefix(kind) + detail@),
{
    let prefix = match kind {
        MessagingFailure::Connect => "Failed to connect to RabbitMQ: ",
        MessagingFailure::CreateChannel => "Failed to create RabbitMQ channel: ",
        MessagingFailure::DeclareQueue => "Failed to assert queue: ",
        MessagingFailure::Serialize => "Failed to serialize message: ",
        MessagingFailure::SendPublish => "Failed to send publish command: ",
        MessagingFailure::ConfirmPublish => "Failed to confirm publish: ",
        MessagingFailure::Consume => "Failed to basic_consume: ",
    };
    AppError::Internal(concat2(prefix, detail))
}

/// What a subscriber does with what the consumer stream yields.
#[derive(Debug, Clone, Copy, PartialEq, Eq)]
pub enum DeliveryAction {
    /// Hand the message to the callback, then acknowledge it.
    HandleAndAck,
    /// Reject a message that could not be read (`nack`), without handing it
    /// to the callback.
    Nack,
    /// Log a stream error and go on.
    Ignore,
}

/// The action for a stream item: `delivered` when the stream gave a
/// message, `decoded` when its body was read as the expected type.
pub fn delivery_action(delivered: bool, decoded: bool) -> (r: DeliveryAction)
    ensures
        !delivered ==> r == DeliveryAction::Ignore,
        delivered && decoded ==> r == DeliveryAction::HandleAndAck,
        delivered && !decoded ==> r == DeliveryAction::Nack,
{
    if !delivered {
        DeliveryAction::Ignore
    } else if decoded {
        DeliveryAction::HandleAndAck
    } else {
        DeliveryAction::Nack
    }
}

} // verus!
