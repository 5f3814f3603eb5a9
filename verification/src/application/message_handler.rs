//! Sending a message and reading messages.

use crate::auth::middleware::AccessToken;
use crate::auth::token::Authenticator;
use crate::infrastructure::responses::{
    Accepted, ApplicationResult, Created, Error, ErrorResponse, GenericResponse, StatusCode,
};
use crate::infrastructure::text::{join, to_decimal};
use crate::model::error::ServiceResult;
use crate::model::message::{Message, MessageView};
use crate::model::message_service::MessageService;
use vstd::prelude::*;
use vstd::string::*;

verus! {

/// A message to send.
pub struct MessageDto {
    pub from: i32,
    pub to: i32,
    pub message: String,
}

/// A query for the messages of the user `from` since the message `since`.
pub struct SearchMessageDto {
    pub from: i32,
    pub since: i32,
    pub limit: Option<i64>,
}

/// A message in an answer. A message that was asked for by its id is
/// answered without its id and recipient.
pub struct ResponseMessageDto {
    pub id: Option<i32>,
    pub to: Option<i32>,
    pub message: String,
}

/// What a message in an answer is, as plain values.
pub struct ResponseMessageView {
    pub id: Option<i32>,
    pub to: Option<i32>,
    pub message: Seq<char>,
}

impl View for ResponseMessageDto {
    type V = ResponseMessageView;

    open spec fn view(&self) -> ResponseMessageView {
        ResponseMessageView { id: self.id, to: self.to, message: self.message@ }
    }
}

/// The messages of an answer as plain values.
pub open spec fn response_views(dtos: Seq<ResponseMessageDto>) -> Seq<ResponseMessageView> {
    dtos.map_values(|dto: ResponseMessageDto| dto@)
}

/// A stored message as a list of messages shows it: with its id and
/// recipient.
pub open spec fn listed_message(message: MessageView) -> ResponseMessageView {
    ResponseMessageView { id: Some(message.id), to: Some(message.to), message: message.message }
}

/// Stored messages as a list of messages shows them.
pub open spec fn listed_messages(messages: Seq<MessageView>) -> Seq<ResponseMessageView> {
    messages.map_values(|message: MessageView| listed_message(message))
}

/// The error of a request whose token does not authorize it.
pub fn access_denied() -> (r: Error)
    ensures
        r is UnauthorizedError,
        r.message() == "Access denied"@,
{
    ErrorResponse::create_error("Access denied", StatusCode::Unauthorized)
}

/// A bad request whose message is `reason` followed by the words of the
/// failure.
fn bad_request(reason: &str, cause: &crate::model::error::Error) -> (r: Error)
    ensures
        r is BadRequestError,
        r.message() == reason@ + cause.message(),
{
    let err_msg = join(reason, cause.to_string().as_str());
    ErrorResponse::create_error(err_msg.as_str(), StatusCode::BadRequest)
}

/// The answer of a send to the outcome of the service: the place of the
/// message and its id under the name `id`, or a bad request that names the
/// cause.
pub fn sent(outcome: ServiceResult<i32>) -> (r: ApplicationResult<Created<GenericResponse>>)
    ensures
        match outcome {
            Ok(id) => r matches Ok(created) && created.0@ == "/message/"@
                + crate::infrastructure::text::decimal(id as int) && (created.1 matches Some(
                body,
            ) && body@.len() == 1 && body@[0].0@ == "id"@ && body@[0].1@
                == crate::infrastructure::text::decimal(id as int)
                && crate::infrastructure::responses::distinct_names(body@)),
            Err(err) => r matches Err(e) && e is BadRequestError && e.message()
                == "Cannot insert the message because "@ + err.message(),
        },
{
    match outcome {
        Ok(msg_id) => {
            let mut response: GenericResponse = Vec::new();
            response.push((String::from_str("id"), to_decimal(msg_id)));
            Ok(Created(join("/message/", to_decimal(msg_id).as_str()), Some(response)))
        },
        Err(err) => Err(bad_request("Cannot insert the message because ", &err)),
    }
}

/// Sends a message from one user to another one, where the token authorizes
/// the sender: 201 with the id of the message, 400 where the message could
/// not be stored, 401 where the token does not authorize the sender. A token
/// that speaks for another identity than the sender stores nothing.
pub fn send_message<MS: MessageService, A: Authenticator>(
    message_service: &mut MS,
    authenticator: &A,
    token: &AccessToken,
    msg_dto: &MessageDto,
) -> (r: ApplicationResult<Created<GenericResponse>>)
    ensures
        final(message_service).reliable() == old(message_service).reliable(),
        !crate::auth::token::has_bearer_prefix(token@) || authenticator.subject_of(
            crate::auth::token::bearer_token(token@),
        ) != Some(msg_dto.from as int) ==> (r matches Err(e) && e is UnauthorizedError),
        match r {
            Ok(created) => {
                &&& authenticator.subject_of(crate::auth::token::bearer_token(token@)) == Some(
                    msg_dto.from as int,
                )
                &&& crate::model::repository::message_repository::inserted(
                    old(message_service).messages(),
                    final(message_service).messages(),
                    crate::model::message_service::new_message(
                        msg_dto.from,
                        msg_dto.to,
                        msg_dto.message@,
                    ),
                )
                &&& created.0@ == "/message/"@ + crate::infrastructure::text::decimal(
                    final(message_service).messages().last().id as int,
                )
                &&& created.1 matches Some(body) && body@.len() == 1 && body@[0].0@ == "id"@
                    && body@[0].1@ == crate::infrastructure::text::decimal(
                    final(message_service).messages().last().id as int,
                ) && crate::infrastructure::responses::distinct_names(body@)
            },
            Err(e) => match e {
                Error::UnauthorizedError(_) => {
                    &&& e.message() == "Access denied"@
                    &&& final(message_service).messages() == old(message_service).messages()
                },
                Error::BadRequestError(_) => {
                    &&& authenticator.subject_of(crate::auth::token::bearer_token(token@))
                        == Some(msg_dto.from as int)
                    &&& crate::infrastructure::text::starts_with(
                        e.message(),
                        "Cannot insert the message because "@,
                    )
                    &&& final(message_service).messages() == old(message_service).messages()
                        || crate::model::repository::message_repository::inserted(
                        old(message_service).messages(),
                        final(message_service).messages(),
                        crate::model::message_service::new_message(
                            msg_dto.from,
                            msg_dto.to,
                            msg_dto.message@,
                        ),
                    )
                },
                Error::StandardError(_) => false,
            },
        },
{
    match authenticator.authorize(token, msg_dto.from) {
        Ok(_) => {
            let outcome = message_service.create(msg_dto.from, msg_dto.to, msg_dto.message.clone());
            proof {
                if let Err(err) = &outcome {
                    let head = "Cannot insert the message because "@;
                    assert((head + err.message()).subrange(0, head.len() as int) =~= head);
                }
            }
            sent(outcome)
        },
        Err(_) => Err(access_denied()),
    }
}

/// The answer of a read by id to the outcome of the service: the text of
/// the message, or a bad request that names the cause.
pub fn retrieved(outcome: ServiceResult<Message>) -> (r: ApplicationResult<
    Accepted<ResponseMessageDto>,
>)
    ensures
        match outcome {
            Ok(message) => r matches Ok(accepted) && (accepted.0 matches Some(dto) && dto@ == (
                ResponseMessageView { id: None, to: None, message: message@.message }
            )),
            Err(err) => r matches Err(e) && e is BadRequestError && e.message()
                == "Cannot retrieve the message because "@ + err.message(),
        },
{
    match outcome {
        Ok(msg) => {
            let dto = ResponseMessageDto { id: None, to: None, message: msg.get_message() };
            Ok(Accepted(Some(dto)))
        },
        Err(err) => Err(bad_request("Cannot retrieve the message because ", &err)),
    }
}

/// Gets a message from its id: 202 with the text of the message, 400 where
/// no message has the id or the store fails. The token is not held against
/// the message.
pub fn get_message<MS: MessageService, A: Authenticator>(
    message_service: &MS,
    _authenticator: &A,
    _token: &AccessToken,
    id: i32,
) -> (r: ApplicationResult<Accepted<ResponseMessageDto>>)
    ensures
        match r {
            Ok(accepted) => accepted.0 matches Some(dto) && dto.id is None && dto.to is None
                && exists|i: int|
                0 <= i < message_service.messages().len() && (
                #[trigger] message_service.messages()[i]).id == id
                    && message_service.messages()[i].message == dto.message@,
            Err(e) => {
                &&& e is BadRequestError
                &&& crate::infrastructure::text::starts_with(
                    e.message(),
                    "Cannot retrieve the message because "@,
                )
                &&& message_service.reliable() ==> e.message()
                    == "Cannot retrieve the message because Record not found"@ && forall|i: int|
                    0 <= i < message_service.messages().len() ==> (
                    #[trigger] message_service.messages()[i]).id != id
            },
        },
{
    let outcome = message_service.get(id);
    proof {
        reveal_strlit("Cannot retrieve the message because ");
        reveal_strlit("Record not found");
        reveal_strlit("Cannot retrieve the message because Record not found");
        match &outcome {
            Ok(message) => {
                let i = choose|i: int|
                    0 <= i < message_service.messages().len() && message_service.messages()[i]
                        == message@;
                assert(message_service.messages()[i].id == id);
            },
            Err(err) => {
                let head = "Cannot retrieve the message because "@;
                assert((head + err.message()).subrange(0, head.len() as int) =~= head);
                if err is NotFoundError {
                    assert(head + err.message()
                        =~= "Cannot retrieve the message because Record not found"@);
                }
            },
        }
    }
    retrieved(outcome)
}

/// The messages of a list as an answer shows them.
pub fn list_of(messages: &Vec<Message>) -> (r: Vec<ResponseMessageDto>)
    ensures
        response_views(r@) == listed_messages(
            crate::model::repository::message_repository::message_views(messages@),
        ),
{
    let mut messages_dto: Vec<ResponseMessageDto> = Vec::new();
    let mut i: usize = 0;
    while i < messages.len()
        invariant
            i <= messages@.len(),
            messages_dto@.len() == i,
            forall|k: int| 0 <= k < i ==> (#[trigger] messages_dto@[k])@ == listed_message(
                messages@[k]@,
            ),
        decreases messages@.len() - i,
    {
        let a_msg = &messages[i];
        messages_dto.push(
            ResponseMessageDto {
                id: Some(a_msg.get_id()),
                to: Some(a_msg.get_to()),
                message: a_msg.get_message(),
            },
        );
        i += 1;
    }
    assert(response_views(messages_dto@) =~= listed_messages(
        crate::model::repository::message_repository::message_views(messages@),
    ));
    messages_dto
}

/// The answer of a query to the outcome of the service: the messages with
/// their ids and recipients, or a bad request that names the cause.
pub fn listed(outcome: ServiceResult<Vec<Message>>) -> (r: ApplicationResult<
    Accepted<Vec<ResponseMessageDto>>,
>)
    ensures
        match outcome {
            Ok(messages) => r matches Ok(accepted) && (accepted.0 matches Some(dtos)
                && response_views(dtos@) == listed_messages(
                crate::model::repository::message_repository::message_views(messages@),
            )),
            Err(err) => r matches Err(e) && e is BadRequestError && e.message()
                == "Cannot retrieve the messages because "@ + err.message(),
        },
{
    match outcome {
        Ok(messages) => Ok(Accepted(Some(list_of(&messages)))),
        Err(err) => Err(bad_request("Cannot retrieve the messages because ", &err)),
    }
}

/// Gets the messages of the user of the query since the message of the
/// query, by descending id and no more than the limit, where the token
/// authorizes the user: 202 with the messages, 400 where the store fails,
/// 401 where the token does not authorize the user.
pub fn get_message_from<MS: MessageService, A: Authenticator>(
    message_service: &MS,
    authenticator: &A,
    token: &AccessToken,
    search_dto: &SearchMessageDto,
) -> (r: ApplicationResult<Accepted<Vec<ResponseMessageDto>>>)
    ensures
        !crate::auth::token::has_bearer_prefix(token@) || authenticator.subject_of(
            crate::auth::token::bearer_token(token@),
        ) != Some(search_dto.from as int) ==> (r matches Err(e) && e is UnauthorizedError),
        match r {
            Ok(accepted) => {
                &&& authenticator.subject_of(crate::auth::token::bearer_token(token@)) == Some(
                    search_dto.from as int,
                )
                &&& accepted.0 matches Some(dtos) && response_views(dtos@) == listed_messages(
                    crate::model::repository::message_repository::page(
                        message_service.messages(),
                        search_dto.since,
                        search_dto.from,
                        crate::model::message_service::limit_or_default(search_dto.limit),
                    ),
                )
                &&& crate::model::repository::message_repository::ids_descend(
                    crate::model::repository::message_repository::page(
                        message_service.messages(),
                        search_dto.since,
                        search_dto.from,
                        crate::model::message_service::limit_or_default(search_dto.limit),
                    ),
                )
            },
            Err(e) => match e {
                Error::UnauthorizedError(_) => e.message() == "Access denied"@,
                Error::BadRequestError(_) => {
                    &&& authenticator.subject_of(crate::auth::token::bearer_token(token@))
                        == Some(search_dto.from as int)
                    &&& !message_service.reliable()
                    &&& crate::infrastructure::text::starts_with(
                        e.message(),
                        "Cannot retrieve the messages because "@,
                    )
                },
                Error::StandardError(_) => false,
            },
        },
{
    match authenticator.authorize(token, search_dto.from) {
        Ok(_) => {
            let outcome = message_service.find(search_dto.since, search_dto.from, search_dto.limit);
            proof {
                if let Err(err) = &outcome {
                    let head = "Cannot retrieve the messages because "@;
                    assert((head + err.message()).subrange(0, head.len() as int) =~= head);
                }
            }
            listed(outcome)
        },
        Err(_) => Err(access_denied()),
    }
}

} // verus!
