use message_server::application::app::{App, TestApp};
use message_server::application::message_handler::{
    get_message, get_message_from, send_message, MessageDto, SearchMessageDto,
};
use message_server::application::user_handler::{create_user, login, UserDto};
use message_server::auth::middleware::AccessToken;
use message_server::auth::token::{Authenticator, BearerAuthenticator};
use message_server::model::message_service::MessageService;
use message_server::model::user_service::UserService;

fn credentials(username: &str, password: &str) -> UserDto {
    UserDto { username: String::from(username), password: String::from(password) }
}

#[test]
fn register_login_send_and_read() {
    let mut users = TestApp.user_service();
    let mut messages = TestApp.message_service();

    assert_eq!(users.create_user(String::from("juan"), String::from("pw")).ok(), Some(1));

    let identity = users.find_user(String::from("juan"), String::from("pw")).ok().unwrap();
    let authenticator = BearerAuthenticator::new(String::from("secret"));
    let token = authenticator.create_token(identity.get_id()).unwrap();
    let session = users.login(&identity, token.clone()).ok().unwrap();
    assert!(!session.get_token().is_empty());
    assert_eq!(session.get_token(), token);
    assert_eq!(session.get_id(), 1);
    assert_eq!(session.get_username(), "juan");

    let id = messages.create(1, 2, String::from("hi")).ok().unwrap();
    let message = messages.get(id).ok().unwrap();
    assert_eq!(
        (message.get_from(), message.get_to(), message.get_message()),
        (1, 2, String::from("hi"))
    );
}

#[test]
fn register_login_send_and_read_through_the_handlers() {
    let mut users = TestApp.user_service();
    let mut messages = TestApp.message_service();
    let authenticator = BearerAuthenticator::new(String::from("secret"));

    let created = create_user(&mut users, &credentials("juan", "pw")).ok().unwrap();
    assert_eq!(created.0, "/user/1");
    let registered = created.1.unwrap();
    assert_eq!((registered.id, registered.username.as_str()), (1, "juan"));
    let created = create_user(&mut users, &credentials("ana", "secret of ana")).ok().unwrap();
    assert_eq!(created.1.unwrap().id, 2);

    let session = login(&mut users, &authenticator, &credentials("juan", "pw"))
        .ok()
        .unwrap()
        .0
        .unwrap();
    assert_eq!(session.id, 1);
    assert!(!session.token.is_empty());
    let header = AccessToken::new(format!("Bearer {}", session.token));
    assert_eq!(authenticator.authorize(&header, 1), Ok(()));

    let hi = MessageDto { from: 1, to: 2, message: String::from("hi") };
    let sent = send_message(&mut messages, &authenticator, &header, &hi).ok().unwrap();
    assert_eq!(sent.0, "/message/1");
    assert_eq!(sent.1, Some(vec![(String::from("id"), String::from("1"))]));

    let read = get_message(&messages, &authenticator, &header, 1).ok().unwrap().0.unwrap();
    assert_eq!((read.id, read.to, read.message.as_str()), (None, None, "hi"));
    let stored = messages.get(1).ok().unwrap();
    assert_eq!((stored.get_from(), stored.get_to()), (1, 2));

    let search = SearchMessageDto { from: 1, since: 1, limit: None };
    let list = get_message_from(&messages, &authenticator, &header, &search).ok().unwrap().0.unwrap();
    assert_eq!(list.len(), 1);
    assert_eq!((list[0].id, list[0].to, list[0].message.as_str()), (Some(1), Some(2), "hi"));
}

#[test]
fn token_of_one_user_does_not_send_for_another() {
    let mut users = TestApp.user_service();
    let mut messages = TestApp.message_service();
    let authenticator = BearerAuthenticator::new(String::from("secret"));
    create_user(&mut users, &credentials("juan", "pw")).ok().unwrap();
    create_user(&mut users, &credentials("ana", "pw2")).ok().unwrap();
    let juan = login(&mut users, &authenticator, &credentials("juan", "pw")).ok().unwrap().0.unwrap();
    let header = AccessToken::new(format!("Bearer {}", juan.token));

    let forged = MessageDto { from: 2, to: 1, message: String::from("not from ana") };
    let error = send_message(&mut messages, &authenticator, &header, &forged).err().unwrap();
    assert_eq!((error.get_status(), error.get_message().as_str()), (401, "Access denied"));
    assert!(messages.get(1).is_err());

    let search = SearchMessageDto { from: 2, since: 1, limit: None };
    let error = get_message_from(&messages, &authenticator, &header, &search).err().unwrap();
    assert_eq!((error.get_status(), error.get_message().as_str()), (401, "Access denied"));

    let bare = AccessToken::new(juan.token.clone());
    let mine = MessageDto { from: 1, to: 2, message: String::from("hi") };
    let error = send_message(&mut messages, &authenticator, &bare, &mine).err().unwrap();
    assert_eq!((error.get_status(), error.get_message().as_str()), (401, "Access denied"));
    assert!(messages.get(1).is_err());
}

#[test]
fn login_with_wrong_credentials_is_a_bad_request() {
    let mut users = TestApp.user_service();
    let authenticator = BearerAuthenticator::new(String::from("secret"));
    create_user(&mut users, &credentials("juan", "pw")).ok().unwrap();
    for dto in [credentials("juan", "PW"), credentials("pedro", "pw"), credentials("", "")] {
        let error = login(&mut users, &authenticator, &dto).err().unwrap();
        assert_eq!((error.get_status(), error.get_message().as_str()), (400, "Invalid credentials"));
    }
}

#[test]
fn second_login_keeps_the_session_and_its_id() {
    let mut users = TestApp.user_service();
    let authenticator = BearerAuthenticator::new(String::from("secret"));
    create_user(&mut users, &credentials("juan", "pw")).ok().unwrap();
    let first = login(&mut users, &authenticator, &credentials("juan", "pw")).ok().unwrap().0.unwrap();
    let second = login(&mut users, &authenticator, &credentials("juan", "pw")).ok().unwrap().0.unwrap();
    assert_eq!(first.id, 1);
    assert_eq!(second.id, 1);
    // The first token is no longer the session's, yet it still authorizes:
    // the authority keeps no state.
    let old_header = AccessToken::new(format!("Bearer {}", first.token));
    assert_eq!(authenticator.authorize(&old_header, 1), Ok(()));
}
