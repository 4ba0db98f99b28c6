//! The tunnel process: its arguments and its environment.

use vstd::prelude::*;
use crate::models::SessionCredentials;
use crate::text::{decimal_of, format_u16};

verus! {

/// The arguments of the tunnel command: the target, the document when one is
/// named, and the remote and local ports.
pub open spec fn tunnel_args_spec(target: Seq<char>, local_port: u16, remote_port: u16, document: Seq<char>) -> Seq<Seq<char>> {
    let head = seq!["ssm"@, "start-session"@, "--target"@, target];
    let doc = if document.len() == 0 { Seq::empty() } else { seq!["--document-name"@, document] };
    head + doc + seq![
        "--parameters"@,
        "portNumber="@ + decimal_of(remote_port as nat) + ",localPortNumber="@ + decimal_of(local_port as nat),
    ]
}

/// One environment variable, if its value is not empty.
pub open spec fn env_entry(name: Seq<char>, value: Seq<char>) -> Seq<(Seq<char>, Seq<char>)> {
    if value.len() == 0 { Seq::empty() } else { seq![(name, value)] }
}

/// The environment of the tunnel command: the three credential fields, each
/// left out when empty.
pub open spec fn tunnel_env_spec(c: SessionCredentials) -> Seq<(Seq<char>, Seq<char>)> {
    env_entry("AWS_ACCESS_KEY_ID"@, c.access_key_id@)
        + env_entry("AWS_SECRET_ACCESS_KEY"@, c.secret_access_key@)
        + env_entry("AWS_SESSION_TOKEN"@, c.session_token@)
}

/// Texts as views.
pub open spec fn texts_view(v: Seq<String>) -> Seq<Seq<char>> {
    v.map_values(|s: String| s@)
}

/// Text pairs as views.
pub open spec fn text_pairs_view(v: Seq<(String, String)>) -> Seq<(Seq<char>, Seq<char>)> {
    v.map_values(|p: (String, String)| (p.0@, p.1@))
}

/// Builds the tunnel command.
pub struct SessionManager;

impl SessionManager {
    /// The arguments of the port-forwarding command.
    pub fn tunnel_args(target: &str, local_port: u16, remote_port: u16, document_name: &str) -> (r: Vec<String>)
        ensures
            texts_view(r@) == tunnel_args_spec(target@, local_port, remote_port, document_name@),
    {
        proof {
            reveal_strlit("ssm");
            reveal_strlit("start-session");
            reveal_strlit("--target");
            reveal_strlit("--document-name");
            reveal_strlit("--parameters");
            reveal_strlit("portNumber=");
            reveal_strlit(",localPortNumber=");
        }
        let mut args: Vec<String> = Vec::new();
        args.push(String::from_str("ssm"));
        args.push(String::from_str("start-session"));
        args.push(String::from_str("--target"));
        args.push(String::from_str(target));
        if document_name.unicode_len() > 0 {
            args.push(String::from_str("--document-name"));
            args.push(String::from_str(document_name));
        }
        args.push(String::from_str("--parameters"));
        let remote = format_u16(remote_port);
        let local = format_u16(local_port);
        let ports = String::from_str("portNumber=").concat(remote.as_str()).concat(",localPortNumber=").concat(local.as_str());
        args.push(ports);
        assert(texts_view(args@) =~= tunnel_args_spec(target@, local_port, remote_port, document_name@));
        args
    }

    /// The environment variables that carry the credentials.
    pub fn tunnel_env(credentials: &SessionCredentials) -> (r: Vec<(String, String)>)
        ensures
            text_pairs_view(r@) == tunnel_env_spec(*credentials),
    {
        proof {
            reveal_strlit("AWS_ACCESS_KEY_ID");
            reveal_strlit("AWS_SECRET_ACCESS_KEY");
            reveal_strlit("AWS_SESSION_TOKEN");
        }
        let mut env: Vec<(String, String)> = Vec::new();
        if credentials.access_key_id.as_str().unicode_len() > 0 {
            env.push((String::from_str("AWS_ACCESS_KEY_ID"), credentials.access_key_id.clone()));
        }
        if credentials.secret_access_key.as_str().unicode_len() > 0 {
            env.push((String::from_str("AWS_SECRET_ACCESS_KEY"), credentials.secret_access_key.clone()));
        }
        if credentials.session_token.as_str().unicode_len() > 0 {
            env.push((String::from_str("AWS_SESSION_TOKEN"), credentials.session_token.clone()));
        }
        assert(text_pairs_view(env@) =~= tunnel_env_spec(*credentials));
        env
    }
}

} // verus!
