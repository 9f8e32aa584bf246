use vstd::prelude::*;

verus! {

/// The class of a failure, as the caller has to tell them apart.
#[derive(Clone, Copy, Debug, PartialEq, Eq, Structural)]
pub enum ErrorKind {
    /// The helper process could not be reached, or answered with a failure status.
    Transport,
    /// A message from the helper did not have the expected shape.
    Protocol,
    /// A ciphertext could not be decrypted or did not authenticate.
    Crypto,
    /// The helper answered, and reported a failure of its own.
    ServerRejection,
    /// The persisted association is missing, invalid or readable by others.
    Config,
    /// The helper declined to associate with this client.
    AssociationRejected,
    /// The helper does not know the persisted association.
    ConfigRejected,
}

/// A failure of any operation of this library: its class and a text for the user.
#[derive(Debug)]
pub struct CmdipassError {
    kind: ErrorKind,
    message: String,
}

/// What a failure says: its class and its text.
pub struct Failure {
    pub kind: ErrorKind,
    pub text: Seq<char>,
}

impl View for CmdipassError {
    type V = Failure;

    closed spec fn view(&self) -> Failure {
        Failure { kind: self.kind, text: self.message@ }
    }
}

impl CmdipassError {
    pub open spec fn spec_kind(&self) -> ErrorKind {
        self@.kind
    }

    /// Whether this is a failure of class `kind` with exactly the text `message`.
    pub open spec fn has(&self, kind: ErrorKind, message: Seq<char>) -> bool {
        self@ == (Failure { kind, text: message })
    }

    pub fn new(kind: ErrorKind, input: &str) -> (error: CmdipassError)
        ensures
            error.has(kind, input@),
    {
        CmdipassError { kind, message: String::from_str(input) }
    }

    #[verifier::when_used_as_spec(spec_kind)]
    pub fn kind(&self) -> (kind: ErrorKind)
        ensures
            kind == self.spec_kind(),
    {
        self.kind
    }

    /// The text of the failure, as it is shown to the user.
    pub fn description(&self) -> (text: &str)
        ensures
            text@ == self@.text,
    {
        self.message.as_str()
    }

    /// An owned copy of the text of the failure.
    pub fn message(&self) -> (text: String)
        ensures
            text@ == self@.text,
    {
        self.message.clone()
    }
}

} // verus!
