//! Registration and login.

use crate::auth::token::Authenticator;
use crate::infrastructure::responses::{
    Accepted, ApplicationResult, Created, Error, ErrorResponse, StatusCode,
};
use crate::infrastructure::text::{join, to_decimal};
use crate::model::error::ServiceResult;
use crate::model::login::Login;
use crate::model::user::User;
use crate::model::user_service::UserService;
use vstd::prelude::*;
use vstd::string::*;

verus! {

/// The credentials of a request to register or to log in.
pub struct UserDto {
    pub username: String,
    pub password: String,
}

/// The answer to a registration.
pub struct ResponseUserDto {
    pub id: i32,
    pub username: String,
}

/// The answer to a login: the id of the session, and its token.
pub struct LoginDto {
    pub id: i32,
    pub token: String,
}

/// The message of a registration that failed for the reason `cause`.
pub open spec fn cannot_insert_user(username: Seq<char>, cause: Seq<char>) -> Seq<char> {
    "Cannot insert the username "@ + username + " because "@ + cause
}

/// The answer of a registration to the outcome of the service: the place and
/// the body of the new user, or a bad request that names the cause.
pub fn registered(username: &str, outcome: ServiceResult<i32>) -> (r: ApplicationResult<
    Created<ResponseUserDto>,
>)
    ensures
        match outcome {
            Ok(id) => r matches Ok(created) && created.0@ == "/user/"@
                + crate::infrastructure::text::decimal(id as int) && (created.1 matches Some(dto)
                && dto.id == id && dto.username@ == username@),
            Err(err) => r matches Err(e) && e is BadRequestError && e.message()
                == cannot_insert_user(username@, err.message()),
        },
{
    match outcome {
        Ok(id_user) => {
            let dto = ResponseUserDto { id: id_user, username: String::from_str(username) };
            Ok(Created(join("/user/", to_decimal(id_user).as_str()), Some(dto)))
        },
        Err(err) => {
            let mut err_msg = join("Cannot insert the username ", username);
            err_msg.append(" because ");
            err_msg.append(err.to_string().as_str());
            Err(ErrorResponse::create_error(err_msg.as_str(), StatusCode::BadRequest))
        },
    }
}

/// Handles the creation of a new user: 201 with the id and username of the
/// user, or 400 with the reason for which the user could not be stored. A
/// reliable store with an id left stores the user.
pub fn create_user<US: UserService>(user_service: &mut US, new_user_dto: &UserDto) -> (r:
    ApplicationResult<Created<ResponseUserDto>>)
    ensures
        old(user_service).reliable() && crate::model::repository::user_repository::id_left(
            old(user_service).identities(),
        ) ==> r is Ok,
        final(user_service).sessions() == old(user_service).sessions(),
        final(user_service).reliable() == old(user_service).reliable(),
        forall|secret: Seq<char>| #[trigger]
            final(user_service).digest(secret) == old(user_service).digest(secret),
        match r {
            Ok(created) => {
                &&& crate::model::repository::user_repository::user_inserted(
                    old(user_service).identities(),
                    final(user_service).identities(),
                    crate::model::user_service::new_user(
                        new_user_dto.username@,
                        old(user_service).digest(new_user_dto.password@),
                    ),
                )
                &&& created.1 matches Some(dto) && dto.username@ == new_user_dto.username@
                    && created.0@ == "/user/"@ + crate::infrastructure::text::decimal(
                    dto.id as int,
                ) && exists|i: int|
                    #[trigger] crate::model::repository::user_repository::is_first_named(
                        final(user_service).identities(),
                        i,
                        new_user_dto.username@,
                    ) && final(user_service).identities()[i].id == dto.id
            },
            Err(e) => {
                &&& e is BadRequestError
                &&& crate::infrastructure::text::starts_with(
                    e.message(),
                    "Cannot insert the username "@ + new_user_dto.username@ + " because "@,
                )
                &&& final(user_service).identities() == old(user_service).identities()
                    || crate::model::repository::user_repository::user_inserted(
                    old(user_service).identities(),
                    final(user_service).identities(),
                    crate::model::user_service::new_user(
                        new_user_dto.username@,
                        old(user_service).digest(new_user_dto.password@),
                    ),
                )
            },
        },
{
    let outcome = user_service.create_user(
        new_user_dto.username.clone(),
        new_user_dto.password.clone(),
    );
    proof {
        if let Err(err) = &outcome {
            let head = "Cannot insert the username "@ + new_user_dto.username@ + " because "@;
            assert((head + err.message()).subrange(0, head.len() as int) =~= head);
        }
    }
    registered(new_user_dto.username.as_str(), outcome)
}

/// The error of a login whose credentials match no identity.
pub fn invalid_credentials() -> (r: Error)
    ensures
        r is BadRequestError,
        r.message() == "Invalid credentials"@,
{
    ErrorResponse::create_error("Invalid credentials", StatusCode::BadRequest)
}

/// The error of a login for which no token could be signed.
pub fn cannot_create_token() -> (r: Error)
    ensures
        r is StandardError,
        r.message() == "Cannot create the token"@,
{
    ErrorResponse::create_error("Cannot create the token", StatusCode::InternalServerError)
}

/// The error of a login whose store failed.
pub fn cannot_make_login() -> (r: Error)
    ensures
        r is StandardError,
        r.message() == "Cannot make the login"@,
{
    ErrorResponse::create_error("Cannot make the login", StatusCode::InternalServerError)
}

/// The answer of a login to the outcome of the lookup of the identity: the
/// identity, a bad request where the credentials match none, and an internal
/// error where the store failed.
pub fn identified(outcome: ServiceResult<User>) -> (r: ApplicationResult<User>)
    ensures
        match outcome {
            Ok(user) => r matches Ok(same) && same@ == user@,
            Err(crate::model::error::Error::InvalidCredentialsError) => r matches Err(e)
                && e is BadRequestError && e.message() == "Invalid credentials"@,
            Err(_) => r matches Err(e) && e is StandardError && e.message()
                == "Cannot make the login"@,
        },
{
    match outcome {
        Ok(user) => Ok(user),
        Err(crate::model::error::Error::InvalidCredentialsError) => Err(invalid_credentials()),
        Err(_) => Err(cannot_make_login()),
    }
}

/// The answer of a login to the outcome of the session workflow: the id and
/// the token of the session, or an internal error.
pub fn logged(outcome: ServiceResult<Login>) -> (r: ApplicationResult<Accepted<LoginDto>>)
    ensures
        match outcome {
            Ok(session) => r matches Ok(accepted) && (accepted.0 matches Some(dto) && dto.id
                == session@.id && dto.token@ == session@.token),
            Err(_) => r matches Err(e) && e is StandardError && e.message()
                == "Cannot make the login"@,
        },
{
    match outcome {
        Ok(login) => Ok(Accepted(Some(LoginDto { token: login.get_token(), id: login.get_id() }))),
        Err(_) => Err(cannot_make_login()),
    }
}

/// Logs a user in: checks that an identity has the username and the
/// password, creates a token for the identity, and makes the token the one
/// current token of the username. 202 with the session, 400 where the
/// credentials match no identity, 500 where the store fails or the token
/// could not be made. With a reliable store and an authenticator that
/// issues, a login with matching credentials succeeds, unless the session
/// is new and no id is left for it.
pub fn login<US: UserService, A: Authenticator>(
    user_service: &mut US,
    authenticator: &A,
    user_dto: &UserDto,
) -> (r: ApplicationResult<Accepted<LoginDto>>)
    ensures
        final(user_service).identities() == old(user_service).identities(),
        final(user_service).reliable() == old(user_service).reliable(),
        forall|secret: Seq<char>| #[trigger]
            final(user_service).digest(secret) == old(user_service).digest(secret),
        old(user_service).reliable() && authenticator.issues()
            && !crate::model::repository::user_repository::no_match(
            old(user_service).identities(),
            user_dto.username@,
            old(user_service).digest(user_dto.password@),
        ) && (crate::model::user_service::no_session_of(
            old(user_service).sessions(),
            user_dto.username@,
        ) ==> crate::model::repository::login_repository::id_left(old(user_service).sessions()))
            ==> r is Ok,
        crate::model::repository::user_repository::no_match(
            old(user_service).identities(),
            user_dto.username@,
            old(user_service).digest(user_dto.password@),
        ) ==> r is Err && (old(user_service).reliable() ==> r->Err_0 is BadRequestError),
        match r {
            Ok(accepted) => {
                &&& accepted.0 matches Some(dto) && exists|i: int|
                    #[trigger] crate::model::repository::user_repository::is_first_match(
                        old(user_service).identities(),
                        i,
                        user_dto.username@,
                        old(user_service).digest(user_dto.password@),
                    ) && authenticator.subject_of(dto.token@) == Some(
                        old(user_service).identities()[i].id as int,
                    )
                &&& accepted.0 matches Some(dto) && dto.token@.len() > 0
                &&& accepted.0 matches Some(dto) && crate::model::user_service::logged_in(
                    old(user_service).sessions(),
                    final(user_service).sessions(),
                    user_dto.username@,
                    dto.token@,
                )
                &&& accepted.0 matches Some(dto) && exists|j: int|
                    #[trigger] crate::model::repository::login_repository::is_first_with_key(
                        final(user_service).sessions(),
                        j,
                        user_dto.username@,
                        dto.token@,
                    ) && final(user_service).sessions()[j].id == dto.id
                &&& accepted.0 matches Some(dto) && (crate::model::user_service::no_session_of(
                    old(user_service).sessions(),
                    user_dto.username@,
                ) ==> dto.id == crate::model::repository::login_repository::next_id(
                    old(user_service).sessions(),
                ))
                &&& accepted.0 matches Some(dto) && forall|j: int|
                    #[trigger] crate::model::repository::login_repository::is_first_of(
                        old(user_service).sessions(),
                        j,
                        user_dto.username@,
                    ) ==> dto.id == old(user_service).sessions()[j].id
            },
            Err(e) => match e {
                Error::BadRequestError(_) => {
                    &&& e.message() == "Invalid credentials"@
                    &&& final(user_service).sessions() == old(user_service).sessions()
                    &&& crate::model::repository::user_repository::no_match(
                        old(user_service).identities(),
                        user_dto.username@,
                        old(user_service).digest(user_dto.password@),
                    )
                },
                Error::StandardError(_) => {
                    ||| e.message() == "Cannot create the token"@ && final(user_service).sessions()
                        == old(user_service).sessions()
                    ||| e.message() == "Cannot make the login"@ && (final(user_service).sessions()
                        == old(user_service).sessions() || exists|token: Seq<char>|
                        #[trigger] crate::model::user_service::logged_in(
                            old(user_service).sessions(),
                            final(user_service).sessions(),
                            user_dto.username@,
                            token,
                        ))
                },
                Error::UnauthorizedError(_) => false,
            },
        },
{
    let found = user_service.find_user(user_dto.username.clone(), user_dto.password.clone());
    proof {
        reveal_strlit("Invalid credentials");
        reveal_strlit("Cannot make the login");
        reveal_strlit("Cannot create the token");
    }
    let user = match identified(found) {
        Ok(user) => user,
        Err(e) => {
            return Err(e);
        },
    };
    let token = match authenticator.create_token(user.get_id()) {
        Ok(token) => token,
        Err(_) => {
            return Err(cannot_create_token());
        },
    };
    let ghost issued = token@;
    let outcome = user_service.login(&user, token);
    proof {
        let i = choose|i: int|
            #[trigger] crate::model::repository::user_repository::is_first_match(
                old(user_service).identities(),
                i,
                user_dto.username@,
                old(user_service).digest(user_dto.password@),
            ) && old(user_service).identities()[i] == user@;
        assert(user@.username == user_dto.username@);
        assert(crate::model::repository::user_repository::has_credentials(
            old(user_service).identities()[i],
            user_dto.username@,
            old(user_service).digest(user_dto.password@),
        ));
        if let Ok(session) = &outcome {
            let j = choose|j: int|
                #[trigger] crate::model::repository::login_repository::is_first_with_key(
                    user_service.sessions(),
                    j,
                    user@.username,
                    issued,
                ) && user_service.sessions()[j] == session@;
            assert(session@.token == issued);
        }
    }
    logged(outcome)
}

} // verus!
