use vstd::prelude::*;

verus! {

/// Name of the helper's socket within its directory.
pub const SOCKET_NAME: &'static str = "kpxc_server";

/// Where the socket is looked for when the user has no runtime directory.
pub const DEFAULT_SOCKET: &'static str = "/tmp/kpxc_server";

/// How many bytes of an answer are read, at most.
pub const RESPONSE_LIMIT: usize = 16384;

/// The channel to the helper: a handle on whatever the caller has connected.
pub struct ProxySocket<T> {
    inner: T,
}

impl<T> ProxySocket<T> {
    pub closed spec fn spec_inner(&self) -> T {
        self.inner
    }

    /// The channel over a stream that the caller has connected.
    pub fn new(inner: T) -> (socket: ProxySocket<T>)
        ensures
            socket.spec_inner() == inner,
    {
        ProxySocket { inner }
    }

    /// Gives the stream back.
    pub fn into_inner(self) -> (inner: T)
        ensures
            inner == self.spec_inner(),
    {
        self.inner
    }
}

/// The path of the helper's socket for a runtime directory `directory`.
pub open spec fn socket_path_text(directory: Option<Seq<char>>) -> Seq<char> {
    match directory {
        Some(directory) => directory + "/"@ + SOCKET_NAME@,
        None => DEFAULT_SOCKET@,
    }
}

/// Where to connect to the helper: under the user's runtime directory where there is one,
/// and under `/tmp` else.
pub fn socket_path(runtime_directory: Option<&str>) -> (path: String)
    ensures
        path@ == socket_path_text(
            match runtime_directory {
                Some(d) => Some(d@),
                None => None,
            },
        ),
{
    match runtime_directory {
        Some(directory) => {
            let mut path = String::from_str(directory);
            path.append("/");
            path.append(SOCKET_NAME);
            path
        },
        None => String::from_str(DEFAULT_SOCKET),
    }
}

/// The name of the helper's pipe for a user, where pipes stand for sockets.
pub fn pipe_name(username: &str) -> (name: String)
    ensures
        name@ == "\\\\.\\pipe\\keepassxc\\"@ + username@ + "\\"@ + SOCKET_NAME@,
{
    let mut name = String::from_str("\\\\.\\pipe\\keepassxc\\");
    name.append(username);
    name.append("\\");
    name.append(SOCKET_NAME);
    name
}

} // verus!
