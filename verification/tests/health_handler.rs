use std::cell::Cell;

use message_server::application::health_handler::{ping, pong};
use message_server::model::error::{Error, ServiceResult};
use message_server::model::login::Login;
use message_server::model::user::User;
use message_server::model::user_service::UserService;

/// A user service that answers the count with a canned outcome and counts
/// how often it was asked.
struct CannedUserService {
    total: fn() -> ServiceResult<i64>,
    asked: Cell<usize>,
}

impl UserService for CannedUserService {
    fn create_user(&mut self, _username: String, _password: String) -> ServiceResult<i32> {
        panic!("create_user is not expected")
    }

    fn find_user(&self, _username: String, _password: String) -> ServiceResult<User> {
        panic!("find_user is not expected")
    }

    fn login(&mut self, _user: &User, _token: String) -> ServiceResult<Login> {
        panic!("login is not expected")
    }

    fn total(&self) -> ServiceResult<i64> {
        self.asked.set(self.asked.get() + 1);
        (self.total)()
    }
}

fn message_body(message: &str) -> String {
    let mut body = serde_json::Map::new();
    body.insert(String::from("message"), serde_json::Value::from(message));
    serde_json::Value::Object(body).to_string()
}

#[test]
fn ping_ok() {
    let mock_us = CannedUserService { total: || Ok(1), asked: Cell::new(0) };

    let response = ping(&mock_us);

    assert_eq!(mock_us.asked.get(), 1);
    let accepted = response.ok().expect("202 Accepted");
    assert_eq!(accepted.0, Some(String::from("pong")));
}

#[test]
fn ping_fail() {
    let mock_us = CannedUserService {
        total: || Err(Error::StorageError(String::from("some error"))),
        asked: Cell::new(0),
    };

    let response = ping(&mock_us);

    assert_eq!(mock_us.asked.get(), 1);
    let error = response.err().expect("an error");
    assert_eq!(error.get_status(), 500);
    assert_eq!(message_body(&error.get_message()), "{\"message\":\"some error\"}");
}

#[test]
fn pong_answers_every_count() {
    assert_eq!(pong(&Ok(0)).ok().unwrap().0, Some(String::from("pong")));
    assert_eq!(pong(&Ok(i64::MAX)).ok().unwrap().0, Some(String::from("pong")));
    let error = pong(&Err(Error::NotFoundError)).err().unwrap();
    assert_eq!(error.get_status(), 500);
    assert_eq!(error.get_message(), "Record not found");
}
