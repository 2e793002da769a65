//! Session credentials and the worker process's invocation arguments.

use vstd::prelude::*;
use vstd::string::*;
use crate::errors::SessionError;

verus! {

/// Resolved connection parameters for one session: either an API
/// credential triple (key, session identity, auth token) or a demo-room
/// identifier, plus an optional target stream filter.  Read-only once
/// the worker has been launched from them.
pub struct Credentials {
    pub api_key: Option<String>,
    pub session_id: Option<String>,
    pub token: Option<String>,
    pub room_uri: Option<String>,
    pub stream_id: Option<String>,
}

/// The mathematical value of [`Credentials`].
pub struct CredentialsModel {
    pub api_key: Option<Seq<char>>,
    pub session_id: Option<Seq<char>>,
    pub token: Option<Seq<char>>,
    pub room_uri: Option<Seq<char>>,
    pub stream_id: Option<Seq<char>>,
}

/// The view of one optional string.
pub open spec fn opt_view(s: Option<String>) -> Option<Seq<char>> {
    match s {
        Some(v) => Some(v@),
        None => None,
    }
}

impl View for Credentials {
    type V = CredentialsModel;

    open spec fn view(&self) -> CredentialsModel {
        CredentialsModel {
            api_key: opt_view(self.api_key),
            session_id: opt_view(self.session_id),
            token: opt_view(self.token),
            room_uri: opt_view(self.room_uri),
            stream_id: opt_view(self.stream_id),
        }
    }
}

impl CredentialsModel {
    /// The full API credential triple is present.
    pub open spec fn has_api_credentials(self) -> bool {
        &&& self.api_key is Some
        &&& self.session_id is Some
        &&& self.token is Some
    }

    /// The credentials can launch a worker: an API key brings the whole
    /// triple with it, and without one a demo-room identifier stands in.
    /// The two contents are mutually exclusive in the invocation built
    /// from them.
    pub open spec fn is_complete(self) -> bool {
        if self.api_key is Some {
            self.session_id is Some && self.token is Some
        } else {
            self.room_uri is Some
        }
    }
}

/// The views of a sequence of strings.
pub open spec fn string_views(v: Seq<String>) -> Seq<Seq<char>> {
    v.map_values(|s: String| s@)
}

/// The worker's argv tail, given complete credentials and the IPC
/// rendezvous name: the source direction flag, the rendezvous name,
/// then either the API credential triple or the demo-room identifier,
/// then the target stream filter when one is set.
pub open spec fn launch_args_model(c: CredentialsModel, ipc_server_name: Seq<char>) -> Seq<
    Seq<char>,
>
    recommends
        c.is_complete(),
{
    let base = seq!["--direction"@, "src"@, "--ipc-server"@, ipc_server_name];
    let auth = if c.api_key is Some {
        seq![
            "--api-key"@,
            c.api_key->0,
            "--session-id"@,
            c.session_id->0,
            "--token"@,
            c.token->0,
        ]
    } else {
        seq!["--room-uri"@, c.room_uri->0]
    };
    let filter = match c.stream_id {
        Some(id) => seq!["--stream-id"@, id],
        None => Seq::<Seq<char>>::empty(),
    };
    base + auth + filter
}

impl Credentials {
    /// Credentials with nothing resolved yet.
    pub fn empty() -> (c: Credentials)
        ensures
            c@.api_key is None,
            c@.session_id is None,
            c@.token is None,
            c@.room_uri is None,
            c@.stream_id is None,
    {
        Credentials {
            api_key: None,
            session_id: None,
            token: None,
            room_uri: None,
            stream_id: None,
        }
    }

    /// Whether a worker can be launched from these credentials.
    pub fn is_complete(&self) -> (b: bool)
        ensures
            b == self@.is_complete(),
    {
        match &self.api_key {
            Some(_) => self.session_id.is_some() && self.token.is_some(),
            None => self.room_uri.is_some(),
        }
    }

    /// The target stream filter is fixed by whoever first sets it; any
    /// later attempt is rejected and changes nothing.
    pub fn set_stream_id(&mut self, id: String) -> (r: Result<(), SessionError>)
        ensures
            old(self)@.stream_id is None ==> r is Ok && final(self)@ == (CredentialsModel {
                stream_id: Some(id@),
                ..old(self)@
            }),
            old(self)@.stream_id is Some ==> (r == Result::<(), SessionError>::Err(
                SessionError::InvalidState,
            ) && final(self)@ == old(self)@),
    {
        match &self.stream_id {
            Some(_) => Err(SessionError::InvalidState),
            None => {
                self.stream_id = Some(id);
                Ok(())
            },
        }
    }

    /// The session's location string, `opentok://` followed by the
    /// session identity, once one is known.
    pub fn location(&self) -> (r: Option<String>)
        ensures
            self@.session_id is Some ==> (r matches Some(loc) && loc@ == "opentok://"@
                + self@.session_id->0),
            self@.session_id is None ==> r is None,
    {
        match &self.session_id {
            Some(id) => {
                let mut loc = String::from_str("opentok://");
                loc.append(id.as_str());
                Some(loc)
            },
            None => None,
        }
    }

    /// The worker process's argument list.
    pub fn launch_args(&self, ipc_server_name: &str) -> (args: Vec<String>)
        requires
            self@.is_complete(),
        ensures
            string_views(args@) == launch_args_model(self@, ipc_server_name@),
    {
        let mut args: Vec<String> = Vec::new();
        args.push(String::from_str("--direction"));
        args.push(String::from_str("src"));
        args.push(String::from_str("--ipc-server"));
        args.push(String::from_str(ipc_server_name));
        match &self.api_key {
            Some(key) => {
                args.push(String::from_str("--api-key"));
                args.push(key.clone());
                args.push(String::from_str("--session-id"));
                args.push(self.session_id.as_ref().unwrap().clone());
                args.push(String::from_str("--token"));
                args.push(self.token.as_ref().unwrap().clone());
            },
            None => {
                args.push(String::from_str("--room-uri"));
                args.push(self.room_uri.as_ref().unwrap().clone());
            },
        }
        match &self.stream_id {
            Some(id) => {
                args.push(String::from_str("--stream-id"));
                args.push(id.clone());
            },
            None => {},
        }
        proof {
            assert(string_views(args@) =~= launch_args_model(self@, ipc_server_name@));
        }
        args
    }
}

} // verus!
