use vstd::prelude::*;

use crate::data_stores::{UserMap, UserStore};
use crate::email::{is_valid_email, Email};
use crate::error::AuthAPIError;
use crate::password::{is_valid_password, Password, MIN_PASSWORD_LEN};
use crate::user::{User, UserView};

verus! {

/// The raw fields of a signup: email, password and the second-factor flag.
#[derive(Debug, Clone)]
pub struct SignupRequest {
    pub email: String,
    pub password: String,
    pub requires_2fa: bool,
}

impl View for SignupRequest {
    type V = UserView;

    open spec fn view(&self) -> UserView {
        (self.email@, self.password@, self.requires_2fa)
    }
}

/// What a successful signup reports.
#[derive(Debug, Clone, PartialEq, Eq)]
pub struct SignupResponse {
    pub message: String,
}

/// Registering an already validated user on a store holding `users`: the new
/// contents and the outcome.
pub open spec fn register_outcome(users: UserMap, user: UserView) -> (UserMap, Result<(), AuthAPIError>) {
    if users.contains_key(user.0) {
        (users, Err(AuthAPIError::UserAlreadyExists))
    } else {
        (users.insert(user.0, user), Ok(()))
    }
}

/// One signup on a store holding `users`: the new contents and the outcome.
/// Invalid input leaves the store alone; a taken email is reported as such;
/// otherwise the user is added under its email.
pub open spec fn signup_outcome(users: UserMap, request: UserView) -> (UserMap, Result<(), AuthAPIError>) {
    if !is_valid_email(request.0) || !is_valid_password(request.1) {
        (users, Err(AuthAPIError::InvalidCredentials))
    } else {
        register_outcome(users, request)
    }
}

/// Signups served one after another, in the order given: the final contents
/// and each signup's outcome.
pub open spec fn signup_run(users: UserMap, requests: Seq<UserView>) -> (UserMap, Seq<Result<(), AuthAPIError>>)
    decreases requests.len(),
{
    if requests.len() == 0 {
        (users, Seq::empty())
    } else {
        let first = signup_outcome(users, requests[0]);
        let rest = signup_run(first.0, requests.drop_first());
        (rest.0, seq![first.1] + rest.1)
    }
}

/// The outcome of a signup, without the response text.
pub open spec fn outcome_of(r: Result<SignupResponse, AuthAPIError>) -> Result<(), AuthAPIError> {
    match r {
        Ok(_) => Ok(()),
        Err(e) => Err(e),
    }
}

/// Builds the user that `request` describes, or refuses it with
/// `InvalidCredentials` when the email or the password is invalid. Touches no
/// store, so it runs before any access to one is taken.
pub fn validate_request(request: SignupRequest) -> (r: Result<User, AuthAPIError>)
    ensures
        match r {
            Ok(user) => is_valid_email(request.email@) && is_valid_password(request.password@)
                && user@ == request@,
            Err(e) => !(is_valid_email(request.email@) && is_valid_password(request.password@))
                && e == AuthAPIError::InvalidCredentials,
        },
        request.password@.len() < MIN_PASSWORD_LEN ==> r is Err,
{
    let requires_2fa = request.requires_2fa;
    let email = Email::parse(request.email);
    let password = Password::parse(request.password);
    match (email, password) {
        (Ok(email), Ok(password)) => Ok(User::new(email, password, requires_2fa)),
        _ => Err(AuthAPIError::InvalidCredentials),
    }
}

/// Adds a validated user unless its email is taken. Holding `user_store` by
/// `&mut` is the exclusive access that makes the existence check and the
/// insertion one step with respect to every other signup.
pub fn register_user<S: UserStore>(user_store: &mut S, user: User) -> (r: Result<SignupResponse, AuthAPIError>)
    requires
        old(user_store).well_formed(),
    ensures
        final(user_store).well_formed(),
        final(user_store).users() == register_outcome(old(user_store).users(), user@).0,
        outcome_of(r) == register_outcome(old(user_store).users(), user@).1,
        r is Ok ==> r->Ok_0.message@ == "User created successfully!"@,
{
    if user_store.get_user(user.email()).is_ok() {
        return Err(AuthAPIError::UserAlreadyExists);
    }
    if user_store.add_user(user).is_err() {
        return Err(AuthAPIError::UnexpectedError);
    }
    Ok(SignupResponse { message: "User created successfully!".to_owned() })
}

/// Registers the user described by `request`: validation first, then the
/// existence check and the insertion under exclusive access to the store.
pub fn signup<S: UserStore>(user_store: &mut S, request: SignupRequest) -> (r: Result<SignupResponse, AuthAPIError>)
    requires
        old(user_store).well_formed(),
    ensures
        final(user_store).well_formed(),
        final(user_store).users() == signup_outcome(old(user_store).users(), request@).0,
        outcome_of(r) == signup_outcome(old(user_store).users(), request@).1,
        r is Ok ==> r->Ok_0.message@ == "User created successfully!"@,
        request.password@.len() < MIN_PASSWORD_LEN ==> r == Err::<SignupResponse, AuthAPIError>(
            AuthAPIError::InvalidCredentials,
        ) && final(user_store).users() == old(user_store).users(),
{
    match validate_request(request) {
        Ok(user) => register_user(user_store, user),
        Err(e) => Err(e),
    }
}

/// Serving one more signup after a run is the run extended by that signup.
proof fn lemma_signup_run_push(users: UserMap, requests: Seq<UserView>, last: UserView)
    ensures
        signup_run(users, requests.push(last)).0 == signup_outcome(signup_run(users, requests).0, last).0,
        signup_run(users, requests.push(last)).1 == signup_run(users, requests).1.push(
            signup_outcome(signup_run(users, requests).0, last).1,
        ),
    decreases requests.len(),
{
    let extended = requests.push(last);
    if requests.len() > 0 {
        let first = signup_outcome(users, requests[0]);
        let rest = requests.drop_first();
        assert(extended[0] == requests[0]);
        assert(extended.drop_first() =~= rest.push(last));
        lemma_signup_run_push(first.0, rest, last);
        let tail_run = signup_run(first.0, rest);
        let step = signup_outcome(tail_run.0, last);
        assert(signup_run(users, extended).1 == seq![first.1] + tail_run.1.push(step.1));
        assert(seq![first.1] + tail_run.1.push(step.1) =~= (seq![first.1] + tail_run.1).push(step.1));
    } else {
        assert(extended.drop_first() =~= Seq::<UserView>::empty());
        assert(extended[0] == last);
        let step = signup_outcome(users, last);
        assert(signup_run(step.0, Seq::<UserView>::empty()).1 =~= Seq::empty());
        assert(seq![step.1] + Seq::<Result<(), AuthAPIError>>::empty() =~= Seq::<Result<(), AuthAPIError>>::empty().push(step.1));
    }
}

/// Serves `requests` one after another against the store, as concurrent
/// callers are served once each has taken exclusive access in turn, and
/// returns each signup's outcome in the order served.
pub fn signup_in_turn<S: UserStore>(user_store: &mut S, requests: &Vec<SignupRequest>) -> (r: Vec<Result<(), AuthAPIError>>)
    requires
        old(user_store).well_formed(),
    ensures
        final(user_store).well_formed(),
        final(user_store).users() == signup_run(old(user_store).users(), requests@.map_values(|q: SignupRequest| q@)).0,
        r@ == signup_run(old(user_store).users(), requests@.map_values(|q: SignupRequest| q@)).1,
{
    let ghost start = user_store.users();
    let ghost views = requests@.map_values(|q: SignupRequest| q@);
    let mut outcomes: Vec<Result<(), AuthAPIError>> = Vec::new();
    let mut i: usize = 0;
    while i < requests.len()
        invariant
            0 <= i <= requests@.len(),
            views == requests@.map_values(|q: SignupRequest| q@),
            user_store.well_formed(),
            user_store.users() == signup_run(start, views.take(i as int)).0,
            outcomes@ == signup_run(start, views.take(i as int)).1,
        decreases requests@.len() - i,
    {
        let request = SignupRequest {
            email: requests[i].email.clone(),
            password: requests[i].password.clone(),
            requires_2fa: requests[i].requires_2fa,
        };
        proof {
            assert(request@ == views[i as int]);
            assert(views.take(i as int + 1) == views.take(i as int).push(views[i as int]));
            lemma_signup_run_push(start, views.take(i as int), views[i as int]);
        }
        let r = signup(user_store, request);
        let outcome = match r {
            Ok(_) => Ok(()),
            Err(e) => Err(e),
        };
        outcomes.push(outcome);
        i = i + 1;
    }
    proof {
        assert(views.take(requests@.len() as int) == views);
    }
    outcomes
}

/// Once an email is present, every further signup for it is refused with
/// `UserAlreadyExists` and the store stays as it is.
pub proof fn lemma_signups_for_present_email(users: UserMap, email: Seq<char>, requests: Seq<UserView>)
    requires
        users.contains_key(email),
        is_valid_email(email),
        forall|i: int| 0 <= i < requests.len() ==> (#[trigger] requests[i]).0 == email
            && is_valid_password(requests[i].1),
    ensures
        signup_run(users, requests).0 == users,
        signup_run(users, requests).1.len() == requests.len(),
        forall|i: int| 0 <= i < requests.len() ==> #[trigger] signup_run(users, requests).1[i]
            == Err::<(), AuthAPIError>(AuthAPIError::UserAlreadyExists),
    decreases requests.len(),
{
    if requests.len() > 0 {
        let tail = requests.drop_first();
        assert(requests[0].0 == email && is_valid_password(requests[0].1));
        assert forall|i: int| 0 <= i < tail.len() implies (#[trigger] tail[i]).0 == email
            && is_valid_password(tail[i].1) by {
            assert(tail[i] == requests[i + 1]);
        }
        lemma_signups_for_present_email(users, email, tail);
        let outs = signup_run(users, requests).1;
        let rest = signup_run(users, tail).1;
        assert forall|i: int| 0 <= i < requests.len() implies #[trigger] outs[i]
            == Err::<(), AuthAPIError>(AuthAPIError::UserAlreadyExists) by {
            if i > 0 {
                assert(outs[i] == rest[i - 1]);
            }
        }
    }
}

/// Any number of valid signups for one new email, served in any order (as
/// `signup_in_turn` and `signup` serve them): exactly the first is created,
/// every other one sees `UserAlreadyExists`, and the store ends with that
/// email held by the first request's user.
pub proof fn lemma_signups_for_one_email(users: UserMap, requests: Seq<UserView>)
    requires
        requests.len() >= 1,
        !users.contains_key(requests[0].0),
        is_valid_email(requests[0].0),
        forall|i: int| 0 <= i < requests.len() ==> (#[trigger] requests[i]).0 == requests[0].0
            && is_valid_password(requests[i].1),
    ensures
        signup_run(users, requests).0 == users.insert(requests[0].0, requests[0]),
        signup_run(users, requests).1.len() == requests.len(),
        signup_run(users, requests).1[0] == Ok::<(), AuthAPIError>(()),
        forall|i: int| 1 <= i < requests.len() ==> #[trigger] signup_run(users, requests).1[i]
            == Err::<(), AuthAPIError>(AuthAPIError::UserAlreadyExists),
{
    let email = requests[0].0;
    let after = users.insert(email, requests[0]);
    let tail = requests.drop_first();
    assert(is_valid_password(requests[0].1));
    assert forall|i: int| 0 <= i < tail.len() implies (#[trigger] tail[i]).0 == email
        && is_valid_password(tail[i].1) by {
        assert(tail[i] == requests[i + 1]);
    }
    lemma_signups_for_present_email(after, email, tail);
    let outs = signup_run(users, requests).1;
    let rest = signup_run(after, tail).1;
    assert forall|i: int| 1 <= i < requests.len() implies #[trigger] outs[i]
        == Err::<(), AuthAPIError>(AuthAPIError::UserAlreadyExists) by {
        assert(outs[i] == rest[i - 1]);
    }
}

} // verus!
