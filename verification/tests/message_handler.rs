use std::cell::RefCell;

use message_server::application::message_handler::{
    get_message, get_message_from, listed, retrieved, send_message, sent, MessageDto,
    ResponseMessageDto, SearchMessageDto,
};
use message_server::auth::error::{AuthResult, Error as AuthError};
use message_server::auth::middleware::{AccessToken, AccessTokenError};
use message_server::auth::token::Authenticator;
use message_server::infrastructure::responses::{GenericResponse, StatusCode};
use message_server::model::error::{Error, ServiceResult};
use message_server::model::message::{Builder, Message};
use message_server::model::message_service::MessageService;

/// A message service with canned answers that records what it was asked.
struct MockMessageService {
    create_answer: Option<fn() -> ServiceResult<i32>>,
    get_answer: Option<fn() -> ServiceResult<Message>>,
    find_answer: Option<fn() -> ServiceResult<Vec<Message>>>,
    create_calls: Vec<(i32, i32, String)>,
    get_calls: RefCell<Vec<i32>>,
    find_calls: RefCell<Vec<(i32, i32, Option<i64>)>>,
}

impl MockMessageService {
    fn new() -> Self {
        MockMessageService {
            create_answer: None,
            get_answer: None,
            find_answer: None,
            create_calls: Vec::new(),
            get_calls: RefCell::new(Vec::new()),
            find_calls: RefCell::new(Vec::new()),
        }
    }
}

impl MessageService for MockMessageService {
    fn create(&mut self, from: i32, to: i32, message: String) -> ServiceResult<i32> {
        self.create_calls.push((from, to, message));
        (self.create_answer.expect("create is not expected"))()
    }

    fn get(&self, id: i32) -> ServiceResult<Message> {
        self.get_calls.borrow_mut().push(id);
        (self.get_answer.expect("get is not expected"))()
    }

    fn find(&self, from_msg: i32, from_user: i32, limit: Option<i64>) -> ServiceResult<Vec<Message>> {
        self.find_calls.borrow_mut().push((from_msg, from_user, limit));
        (self.find_answer.expect("find is not expected"))()
    }
}

/// An authenticator with a canned answer that records what it was asked.
struct MockAuthenticator {
    authorize_answer: Option<fn() -> AuthResult<()>>,
    authorize_calls: RefCell<Vec<(String, i32)>>,
}

impl MockAuthenticator {
    fn new() -> Self {
        MockAuthenticator { authorize_answer: None, authorize_calls: RefCell::new(Vec::new()) }
    }
}

impl Authenticator for MockAuthenticator {
    fn create_token(&self, _uid: i32) -> AuthResult<String> {
        panic!("create_token is not expected")
    }

    fn authorize(&self, token: &AccessToken, uid: i32) -> AuthResult<()> {
        self.authorize_calls.borrow_mut().push((token.get_token(), uid));
        (self.authorize_answer.expect("authorize is not expected"))()
    }
}

fn test_message() -> MessageDto {
    MessageDto { from: 1, to: 2, message: String::from("test message") }
}

fn bearer_1() -> AccessToken {
    AccessToken::from_header_values(&vec![String::from("Bearer 1")]).ok().unwrap()
}

fn generic_body(response: &GenericResponse) -> String {
    let mut body = serde_json::Map::new();
    for (name, value) in response {
        body.insert(name.clone(), serde_json::Value::from(value.as_str()));
    }
    serde_json::Value::Object(body).to_string()
}

fn message_value(dto: &ResponseMessageDto) -> serde_json::Value {
    let mut body = serde_json::Map::new();
    if let Some(id) = dto.id {
        body.insert(String::from("id"), serde_json::Value::from(id));
    }
    if let Some(to) = dto.to {
        body.insert(String::from("to"), serde_json::Value::from(to));
    }
    body.insert(String::from("message"), serde_json::Value::from(dto.message.as_str()));
    serde_json::Value::Object(body)
}

fn message_body(dto: &ResponseMessageDto) -> String {
    message_value(dto).to_string()
}

fn messages_body(dtos: &Vec<ResponseMessageDto>) -> String {
    serde_json::Value::Array(dtos.iter().map(message_value).collect()).to_string()
}

fn error_body(message: &str) -> String {
    let mut body = serde_json::Map::new();
    body.insert(String::from("message"), serde_json::Value::from(message));
    serde_json::Value::Object(body).to_string()
}

#[test]
fn send_message_ok() {
    let mut mock_ms = MockMessageService::new();
    mock_ms.create_answer = Some(|| Ok(1));
    let mut mock_auth = MockAuthenticator::new();
    mock_auth.authorize_answer = Some(|| Ok(()));

    let response = send_message(&mut mock_ms, &mock_auth, &bearer_1(), &test_message());

    assert_eq!(mock_ms.create_calls, vec![(1, 2, String::from("test message"))]);
    assert_eq!(*mock_auth.authorize_calls.borrow(), vec![(String::from("Bearer 1"), 1)]);
    let created = response.ok().expect("201 Created");
    assert_eq!(created.0, "/message/1");
    assert_eq!(created.1.as_ref().map(generic_body), Some(String::from("{\"id\":\"1\"}")))
}

#[test]
fn send_message_unauthorized() {
    let mut mock_ms = MockMessageService::new();
    mock_ms.create_answer = Some(|| Ok(1));
    let mut mock_auth = MockAuthenticator::new();
    mock_auth.authorize_answer = Some(|| Err(AuthError::NoPermissionError));

    let response = send_message(&mut mock_ms, &mock_auth, &bearer_1(), &test_message());

    assert_eq!(mock_ms.create_calls.len(), 0);
    assert_eq!(*mock_auth.authorize_calls.borrow(), vec![(String::from("Bearer 1"), 1)]);
    let error = response.err().expect("an error");
    assert_eq!(error.get_status(), 401);
    assert_eq!(
        Some(error_body(&error.get_message())),
        Some(String::from("{\"message\":\"Access denied\"}"))
    )
}

#[test]
fn send_message_without_access_token() {
    let mock_ms = MockMessageService::new();
    let mock_auth = MockAuthenticator::new();

    let token = AccessToken::from_header_values(&Vec::new());

    assert_eq!(token.err(), Some((StatusCode::BadRequest, AccessTokenError::Missing)));
    assert_eq!(mock_ms.create_calls.len(), 0);
    assert_eq!(mock_auth.authorize_calls.borrow().len(), 0);
}

#[test]
fn get_message_ok() {
    let mut mock_ms = MockMessageService::new();
    mock_ms.get_answer = Some(|| {
        Ok(Builder::new().with_id(1).with_from(1).with_to(2).with_message("Some message").build())
    });
    let mock_auth = MockAuthenticator::new();

    let response = get_message(&mock_ms, &mock_auth, &bearer_1(), 1);

    assert_eq!(*mock_ms.get_calls.borrow(), vec![1]);
    assert_eq!(mock_auth.authorize_calls.borrow().len(), 0);
    let accepted = response.ok().expect("202 Accepted");
    assert_eq!(
        accepted.0.as_ref().map(message_body),
        Some(String::from("{\"message\":\"Some message\"}"))
    )
}

#[test]
fn get_message_non_existing() {
    let mut mock_ms = MockMessageService::new();
    mock_ms.get_answer = Some(|| Err(Error::StorageError(String::from("some error"))));
    let mock_auth = MockAuthenticator::new();

    let response = get_message(&mock_ms, &mock_auth, &bearer_1(), 1);

    assert_eq!(*mock_ms.get_calls.borrow(), vec![1]);
    assert_eq!(mock_auth.authorize_calls.borrow().len(), 0);
    let error = response.err().expect("an error");
    assert_eq!(error.get_status(), 400);
    assert_eq!(
        Some(error_body(&error.get_message())),
        Some(String::from(
            "{\"message\":\"Cannot retrieve the message because some error\"}"
        ))
    )
}

#[test]
fn get_message_from_ok() {
    let mut mock_ms = MockMessageService::new();
    mock_ms.find_answer = Some(|| {
        Ok(vec![
            Builder::new().with_id(3).with_from(1).with_to(2).with_message("third").build(),
            Builder::new().with_id(1).with_from(1).with_to(4).with_message("first").build(),
        ])
    });
    let mut mock_auth = MockAuthenticator::new();
    mock_auth.authorize_answer = Some(|| Ok(()));
    let search = SearchMessageDto { from: 1, since: 1, limit: Some(4) };

    let response = get_message_from(&mock_ms, &mock_auth, &bearer_1(), &search);

    assert_eq!(*mock_ms.find_calls.borrow(), vec![(1, 1, Some(4))]);
    assert_eq!(*mock_auth.authorize_calls.borrow(), vec![(String::from("Bearer 1"), 1)]);
    let accepted = response.ok().expect("202 Accepted");
    assert_eq!(
        accepted.0.as_ref().map(messages_body),
        Some(String::from(
            "[{\"id\":3,\"to\":2,\"message\":\"third\"},{\"id\":1,\"to\":4,\"message\":\"first\"}]"
        ))
    )
}

#[test]
fn get_message_from_ok_empty_messages() {
    let mut mock_ms = MockMessageService::new();
    mock_ms.find_answer = Some(|| Ok(Vec::new()));
    let mut mock_auth = MockAuthenticator::new();
    mock_auth.authorize_answer = Some(|| Ok(()));
    let search = SearchMessageDto { from: 1, since: 1, limit: None };

    let response = get_message_from(&mock_ms, &mock_auth, &bearer_1(), &search);

    assert_eq!(*mock_ms.find_calls.borrow(), vec![(1, 1, None)]);
    let accepted = response.ok().expect("202 Accepted");
    assert_eq!(accepted.0.as_ref().map(messages_body), Some(String::from("[]")))
}

#[test]
fn get_message_from_unauthorized() {
    let mut mock_ms = MockMessageService::new();
    mock_ms.find_answer = Some(|| Ok(Vec::new()));
    let mut mock_auth = MockAuthenticator::new();
    mock_auth.authorize_answer = Some(|| Err(AuthError::JWTTokenError));
    let search = SearchMessageDto { from: 5, since: 1, limit: None };

    let error = get_message_from(&mock_ms, &mock_auth, &bearer_1(), &search).err().unwrap();

    assert_eq!(mock_ms.find_calls.borrow().len(), 0);
    assert_eq!(*mock_auth.authorize_calls.borrow(), vec![(String::from("Bearer 1"), 5)]);
    assert_eq!(error.get_status(), 401);
    assert_eq!(error.get_message(), "Access denied");
}

#[test]
fn get_message_from_fails_with_the_store() {
    let mut mock_ms = MockMessageService::new();
    mock_ms.find_answer = Some(|| Err(Error::StorageError(String::from("no connection"))));
    let mut mock_auth = MockAuthenticator::new();
    mock_auth.authorize_answer = Some(|| Ok(()));
    let search = SearchMessageDto { from: 5, since: 1, limit: None };

    let error = get_message_from(&mock_ms, &mock_auth, &bearer_1(), &search).err().unwrap();

    assert_eq!(error.get_status(), 400);
    assert_eq!(error.get_message(), "Cannot retrieve the messages because no connection");
}

#[test]
fn send_message_fails_with_the_store() {
    let mut mock_ms = MockMessageService::new();
    mock_ms.create_answer = Some(|| Err(Error::StorageError(String::from("no connection"))));
    let mut mock_auth = MockAuthenticator::new();
    mock_auth.authorize_answer = Some(|| Ok(()));

    let error =
        send_message(&mut mock_ms, &mock_auth, &bearer_1(), &test_message()).err().unwrap();

    assert_eq!(error.get_status(), 400);
    assert_eq!(error.get_message(), "Cannot insert the message because no connection");
}

#[test]
fn sent_writes_the_id_in_decimal() {
    let created = sent(Ok(2147483647)).ok().unwrap();
    assert_eq!(created.0, "/message/2147483647");
    assert_eq!(created.1, Some(vec![(String::from("id"), String::from("2147483647"))]));
}

#[test]
fn retrieved_hides_id_and_recipient() {
    let message = Builder::new().with_id(8).with_from(1).with_to(2).with_message("hi").build();
    let dto = retrieved(Ok(message)).ok().unwrap().0.unwrap();
    assert_eq!((dto.id, dto.to, dto.message.as_str()), (None, None, "hi"));

    let error = retrieved(Err(Error::NotFoundError)).err().unwrap();
    assert_eq!(error.get_status(), 400);
    assert_eq!(error.get_message(), "Cannot retrieve the message because Record not found");
}

#[test]
fn listed_shows_id_and_recipient() {
    let message = Builder::new().with_id(8).with_from(1).with_to(2).with_message("hi").build();
    let dtos = listed(Ok(vec![message])).ok().unwrap().0.unwrap();
    assert_eq!(dtos.len(), 1);
    assert_eq!((dtos[0].id, dtos[0].to, dtos[0].message.as_str()), (Some(8), Some(2), "hi"));
}
