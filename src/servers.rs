use vstd::prelude::*;

verus! {

/// The protocol a discovered mail server speaks.
#[derive(Clone, Copy, Debug, PartialEq, Eq, Structural)]
pub enum ServerKind {
    Imap,
    Pop3,
    Smtp,
    Other,
}

/// The connection security a discovered mail server asks for.
#[derive(Clone, Copy, Debug, PartialEq, Eq, Structural)]
pub enum SecurityKind {
    Plain,
    Starttls,
    Tls,
}

/// One server of an account's automatic configuration.
#[derive(Debug)]
pub struct ServerEntry {
    pub kind: ServerKind,
    pub hostname: Option<String>,
    pub port: Option<u16>,
    pub security: Option<SecurityKind>,
}

/// Why no usable server was found.
#[derive(Clone, Copy, Debug, PartialEq, Eq, Structural)]
pub enum ServerError {
    NotFound,
    MissingHostname,
    MissingPort,
    MissingSecurity,
    NotTls,
}

/// Where to connect.
#[derive(Debug)]
pub struct Endpoint {
    pub host: String,
    pub port: u16,
}

/// What a server entry is good for: its host and port when it has both and
/// asks for TLS, else the first thing missing.
pub open spec fn usable(e: ServerEntry) -> Result<(String, u16), ServerError> {
    match e.hostname {
        None => Err(ServerError::MissingHostname),
        Some(host) => match e.port {
            None => Err(ServerError::MissingPort),
            Some(port) => match e.security {
                None => Err(ServerError::MissingSecurity),
                Some(s) => if s == SecurityKind::Tls {
                    Ok((host, port))
                } else {
                    Err(ServerError::NotTls)
                },
            },
        },
    }
}

/// `i` is the first entry of the wanted kind.
pub open spec fn first_of_kind(s: Seq<ServerEntry>, kind: ServerKind, i: int) -> bool {
    &&& 0 <= i < s.len()
    &&& s[i].kind == kind
    &&& forall|j: int| 0 <= j < i ==> (#[trigger] s[j]).kind != kind
}

/// Picks the first server of the wanted kind and checks that it can be
/// reached over TLS.
pub fn select_server(servers: &Vec<ServerEntry>, kind: ServerKind) -> (r: Result<
    Endpoint,
    ServerError,
>)
    ensures
        (forall|i: int| 0 <= i < servers@.len() ==> (#[trigger] servers@[i]).kind != kind) ==> r
            == Err::<Endpoint, ServerError>(ServerError::NotFound),
        forall|i: int|
            #[trigger] first_of_kind(servers@, kind, i) ==> match r {
                Ok(e) => usable(servers@[i]) == Ok::<(String, u16), ServerError>((e.host, e.port)),
                Err(x) => usable(servers@[i]) == Err::<(String, u16), ServerError>(x),
            },
{
    let mut i: usize = 0;
    while i < servers.len()
        invariant
            i <= servers@.len(),
            forall|j: int| 0 <= j < i ==> (#[trigger] servers@[j]).kind != kind,
        decreases servers.len() - i,
    {
        let e = &servers[i];
        if e.kind == kind {
            proof {
                assert forall|k: int| #[trigger] first_of_kind(servers@, kind, k) implies k
                    == i by {
                    if k < i {
                    } else if k > i {
                        assert(servers@[i as int].kind == kind);
                    }
                }
            }
            let host = match &e.hostname {
                Some(h) => h.clone(),
                None => {
                    return Err(ServerError::MissingHostname);
                },
            };
            let port = match e.port {
                Some(p) => p,
                None => {
                    return Err(ServerError::MissingPort);
                },
            };
            return match e.security {
                None => Err(ServerError::MissingSecurity),
                Some(s) => if s == SecurityKind::Tls {
                    Ok(Endpoint { host, port })
                } else {
                    Err(ServerError::NotTls)
                },
            };
        }
        i = i + 1;
    }
    Err(ServerError::NotFound)
}

} // verus!
