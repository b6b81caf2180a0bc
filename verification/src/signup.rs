//! The signup form: one email field and one action, a POST of the captured
//! email to the user-creation endpoint.
//!
//! The outbound body duplicates the email into the `password` and
//! `username` slots; that is the observed behaviour of the form and is kept
//! as it is, not corrected.

use vstd::prelude::*;
use vstd::string::StringExecFns;

use crate::json::{append_json_opt_string, json_opt_string};
use crate::request::{Method, OutboundRequest};
use crate::state::{
    field_of, field_value, init_view, opt_str_view, spec_reduce, Intent, IntentLabel, Model,
};

verus! {

/// The decoded payload the signup endpoint answers with.
#[derive(Debug, Clone, PartialEq)]
pub struct PingResponse {
    pub status: String,
}

/// The slots of the user object the signup endpoint expects.
#[derive(Debug, Clone, PartialEq)]
pub struct User {
    pub email: Option<String>,
    pub username: Option<String>,
    pub password: Option<String>,
}

/// The events of the signup form.
#[derive(Debug)]
pub enum Msg {
    /// The email input changed: the decoded new text, or the message of an
    /// event that could not be decoded.
    RecvUserEmail(Result<String, String>),
    /// The signup button was pressed.
    SignUp,
    /// The outstanding request settled.
    ReceiveResponse(Result<PingResponse, String>),
}

/// The intent a signup-form event stands for.
pub open spec fn msg_label(msg: Msg) -> IntentLabel<PingResponse> {
    match msg {
        Msg::RecvUserEmail(res) => IntentLabel::FieldChanged(
            "email"@,
            match res {
                Result::Ok(v) => Result::Ok(v@),
                Result::Err(e) => Result::Err(e@),
            },
        ),
        Msg::SignUp => IntentLabel::TriggerAction,
        Msg::ReceiveResponse(res) => IntentLabel::RequestCompleted(
            match res {
                Result::Ok(p) => Result::Ok(p),
                Result::Err(e) => Result::Err(e@),
            },
        ),
    }
}

/// The URL the signup form posts to.
pub open spec fn signup_url() -> Seq<char> {
    "http://localhost:8065/api/v4/users"@
}

/// The JSON object the signup endpoint expects: a `user` object with the
/// three optional text slots.
pub open spec fn user_body_view(
    email: Option<Seq<char>>,
    password: Option<Seq<char>>,
    username: Option<Seq<char>>,
) -> Seq<char> {
    "{\"user\":{\"email\":"@ + json_opt_string(email) + ",\"password\":"@
        + json_opt_string(password) + ",\"username\":"@ + json_opt_string(username) + "}}"@
}

/// The body the form sends for a captured email: the same value fills all
/// three slots.
pub open spec fn signup_body_view(email: Option<Seq<char>>) -> Seq<char> {
    user_body_view(email, email, email)
}

fn clone_opt(v: &Option<String>) -> (r: Option<String>)
    ensures
        r == *v,
{
    match v {
        Option::None => Option::None,
        Option::Some(s) => Option::Some(s.clone()),
    }
}

/// The user object the form submits: the captured email, copied into the
/// `username` and `password` slots as well.
pub fn user_payload(m: &Model<PingResponse>) -> (u: User)
    requires
        m.wf(),
    ensures
        opt_str_view(u.email) == field_of(m@, "email"@),
        u.username == u.email,
        u.password == u.email,
{
    let email = field_value(&m.fields, &String::from_str("email"));
    let username = clone_opt(&email);
    let password = clone_opt(&email);
    User { email, username, password }
}

/// Serialise a user object as the signup endpoint's JSON body.
pub fn user_body(u: &User) -> (r: String)
    ensures
        r@ == user_body_view(
            opt_str_view(u.email),
            opt_str_view(u.password),
            opt_str_view(u.username),
        ),
{
    let mut out = String::from_str("{\"user\":{\"email\":");
    append_json_opt_string(&mut out, &u.email);
    out.append(",\"password\":");
    append_json_opt_string(&mut out, &u.password);
    out.append(",\"username\":");
    append_json_opt_string(&mut out, &u.username);
    out.append("}}");
    proof {
        assert(out@ =~= user_body_view(
            opt_str_view(u.email),
            opt_str_view(u.password),
            opt_str_view(u.username),
        ));
    }
    out
}

/// The one outbound request of the signup form: a POST of the captured
/// email, duplicated into all three slots, to the user-creation endpoint.
pub fn signup_request(m: &Model<PingResponse>) -> (r: OutboundRequest)
    requires
        m.wf(),
    ensures
        r.method is Post,
        r.url@ == signup_url(),
        r.body_view() == Option::Some(signup_body_view(field_of(m@, "email"@))),
{
    let u = user_payload(m);
    let body = user_body(&u);
    OutboundRequest {
        method: Method::Post,
        url: String::from_str("http://localhost:8065/api/v4/users"),
        body: Option::Some(body),
    }
}

/// The signup form component: its whole observable state is its model.
#[derive(Debug)]
pub struct SignUpEmail {
    pub model: Model<PingResponse>,
}

impl SignUpEmail {
    /// A fresh form: no email captured, no response, no error, nothing in
    /// flight.
    pub fn create() -> (c: SignUpEmail)
        ensures
            c.model@ == init_view::<PingResponse>(),
            c.model.wf(),
    {
        SignUpEmail { model: Model::init() }
    }

    /// Interpret one event: step the model by the reducer and, when the
    /// step dispatches, build the form's outbound request. Returns the
    /// re-render flag and the request to start, if any.
    pub fn handle_messages(&mut self, msg: Msg) -> (r: (bool, Option<OutboundRequest>))
        requires
            old(self).model.wf(),
        ensures
            final(self).model.wf(),
            final(self).model@ == spec_reduce(old(self).model@, msg_label(msg)).0,
            r.0 == spec_reduce(old(self).model@, msg_label(msg)).1.rerender,
            (r.1 is Some) == spec_reduce(old(self).model@, msg_label(msg)).1.dispatch,
            (match r.1 {
                Option::Some(req) => req.method is Post && req.url@ == signup_url()
                    && req.body_view() == Option::Some(
                    signup_body_view(field_of(final(self).model@, "email"@)),
                ),
                Option::None => true,
            }),
    {
        let ghost label = msg_label(msg);
        let intent: Intent<PingResponse> = match msg {
            Msg::RecvUserEmail(res) => {
                let it = Intent::FieldChanged(String::from_str("email"), res);
                proof {
                    assert(it@ == label);
                }
                it
            },
            Msg::SignUp => Intent::TriggerAction,
            Msg::ReceiveResponse(res) => {
                let it = Intent::RequestCompleted(res);
                proof {
                    assert(it@ == label);
                }
                it
            },
        };
        let mut taken = Model::init();
        core::mem::swap(&mut taken, &mut self.model);
        let (next, step) = taken.reduce(intent);
        self.model = next;
        if step.dispatch {
            let req = signup_request(&self.model);
            (step.rerender, Option::Some(req))
        } else {
            (step.rerender, Option::None)
        }
    }

    /// The text the renderer shows above the form: the captured email, or a
    /// placeholder while none was entered.
    pub fn email_text(&self) -> (r: String)
        requires
            self.model.wf(),
        ensures
            r@ == (match field_of(self.model@, "email"@) {
                Option::Some(e) => "Your email is: "@ + e,
                Option::None => "Your email is: "@ + "No email yet"@,
            }),
    {
        let mut out = String::from_str("Your email is: ");
        let email = field_value(&self.model.fields, &String::from_str("email"));
        match email {
            Option::Some(e) => {
                out.append(e.as_str());
            },
            Option::None => {
                out.append("No email yet");
            },
        }
        out
    }
}

} // verus!
