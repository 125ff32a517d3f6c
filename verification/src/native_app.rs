//! The native app that waits for a browser to sign its user in.

use crate::error::{Error, ErrorView, StatusCode, outcome};
use crate::text::{
    append_decimal, decimal, decimal_is_read_back, parse_u16, parts_and_separator_make_the_text,
    split_at_first, split_once, u16_is_read_back, u16_value,
};
use vstd::prelude::*;

verus! {

/// A native app on the user's machine: the local port on which it waits for the browser, and the
/// public key for which its access token is to be encrypted.
pub struct NativeApp {
    pub port: u16,
    pub public_key: String,
}

pub struct NativeAppView {
    pub port: u16,
    pub public_key: Seq<char>,
}

impl DeepView for NativeApp {
    type V = NativeAppView;

    open spec fn deep_view(&self) -> NativeAppView {
        NativeAppView { port: self.port, public_key: self.public_key@ }
    }
}

impl NativeAppView {
    /// How the app is written down in the `state` that an identity provider passes on: its port,
    /// a colon, its public key.
    pub open spec fn state(self) -> Seq<char> {
        decimal(self.port as nat) + seq![':'] + self.public_key
    }
}

/// The app that a `state` names, or the answer to a request whose `state` names none.
pub open spec fn app_of_state(state: Seq<char>) -> Result<NativeAppView, ErrorView> {
    match split_at_first(state, ':') {
        Some((port, public_key)) => match u16_value(port) {
            Some(port) => Ok(NativeAppView { port, public_key }),
            None => Err(ErrorView::Http(StatusCode::BadRequest, "invalid port in state"@)),
        },
        None => Err(ErrorView::Http(StatusCode::BadRequest, "invalid state"@)),
    }
}

impl NativeApp {
    /// Writes the app down as the `state` that an identity provider passes on.
    pub fn to_state(&self) -> (state: String)
        ensures
            state@ == self.deep_view().state(),
            state@ == decimal(self.port as nat) + seq![':'] + self.public_key@,
    {
        proof {
            reveal_strlit(":");
        }
        let mut state = String::new();
        append_decimal(&mut state, self.port as u64);
        state.append(":");
        state.append(self.public_key.as_str());
        assert(state@ =~= self.deep_view().state());
        state
    }

    /// Reads the app from the `state` that an identity provider passed on.
    pub fn from_state(state: &str) -> (app: Result<NativeApp, Error>)
        ensures
            outcome(app) == app_of_state(state@),
            app matches Ok(named) ==> {
                &&& split_at_first(state@, ':') matches Some((port, public_key))
                &&& u16_value(port) == Some(named.port)
                &&& public_key == named.public_key@
            },
    {
        let (port, public_key) = match split_once(state, ':') {
            Some(parts) => parts,
            None => {
                return Err(Error::http(StatusCode::BadRequest, "invalid state"));
            },
        };
        match parse_u16(port) {
            Some(port) => Ok(NativeApp { port, public_key: public_key.to_owned() }),
            None => Err(Error::http(StatusCode::BadRequest, "invalid port in state")),
        }
    }
}

/// The app that is read from a `state` is the one that was written into it, whatever its port and
/// its public key are.
pub proof fn app_is_read_back_from_its_state(app: NativeAppView)
    ensures
        app_of_state(app.state()) == Ok::<NativeAppView, ErrorView>(app),
{
    let port = decimal(app.port as nat);
    let state = app.state();
    decimal_is_read_back(app.port as nat);
    u16_is_read_back(app.port);
    assert forall|i: int| 0 <= i < port.len() implies state[i] != ':' by {
        assert(state[i] == port[i]);
        assert('0' <= port[i] <= '9');
    }
    assert(state[port.len() as int] == ':');
    state.index_of_first_ensures(':');
    assert(state.contains(':'));
    assert(state.take(port.len() as int) =~= port);
    assert(state.skip(port.len() as int + 1) =~= app.public_key);
}

/// A `state` is the port of its app in decimal notation, a colon and the app's public key.
pub proof fn a_state_is_a_port_and_a_key(app: NativeAppView)
    ensures
        split_at_first(app.state(), ':') == Some((decimal(app.port as nat), app.public_key)),
{
    let port = decimal(app.port as nat);
    decimal_is_read_back(app.port as nat);
    assert forall|i: int| 0 <= i < port.len() implies port[i] != ':' by {
        assert('0' <= port[i] <= '9');
    }
    parts_and_separator_make_the_text(app.state(), ':', port, app.public_key);
}

/// A `state` names an app exactly where it is a notation of the app's port, a colon and the app's
/// public key. Any other is refused: as one without a colon, or as one without a port.
pub proof fn what_a_state_says(state: Seq<char>, app: NativeAppView)
    ensures
        app_of_state(state) == Ok::<NativeAppView, ErrorView>(app) <==> exists|port: Seq<char>|
            {
                &&& #[trigger] u16_value(port) == Some(app.port)
                &&& state == port + seq![':'] + app.public_key
            },
        !state.contains(':') ==> app_of_state(state) == Err::<NativeAppView, ErrorView>(
            ErrorView::Http(StatusCode::BadRequest, "invalid state"@),
        ),
        app_of_state(state) is Err && state.contains(':') ==> app_of_state(state) == Err::<
            NativeAppView,
            ErrorView,
        >(ErrorView::Http(StatusCode::BadRequest, "invalid port in state"@)),
{
    state.index_of_first_ensures(':');
    if let Some((before, after)) = split_at_first(state, ':') {
        parts_and_separator_make_the_text(state, ':', before, after);
        if app_of_state(state) == Ok::<NativeAppView, ErrorView>(app) {
            assert(u16_value(before) == Some(app.port));
        }
    }
    assert forall|port: Seq<char>|
        {
            &&& #[trigger] u16_value(port) == Some(app.port)
            &&& state == port + seq![':'] + app.public_key
        } implies app_of_state(state) == Ok::<NativeAppView, ErrorView>(app) by {
        assert forall|i: int| 0 <= i < port.len() implies port[i] != ':' by {
            if port[0] == '+' {
                if i > 0 {
                    assert(port.skip(1)[i - 1] == port[i]);
                }
            }
        }
        parts_and_separator_make_the_text(state, ':', port, app.public_key);
    }
}

} // verus!
