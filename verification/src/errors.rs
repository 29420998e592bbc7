use vstd::prelude::*;

verus! {

/// What went wrong.
#[derive(Debug)]
pub enum ErrorKind {
    /// A plain message.
    Msg(String),
    /// The remote RSL does not validate.
    InvalidRSL,
    /// The local nonce is neither in the nonce bag nor in the first new push entry.
    MismatchedNonce,
    /// An error reported by git.
    Git(String),
    /// An error reported by the JSON (de)serializer.
    Serde(String),
    /// An error reported by GnuPG.
    GPGME(String),
    /// An input/output error.
    IO(String),
}

/// An error together with the error that caused it, if any.
#[derive(Debug)]
pub struct Error {
    pub kind: ErrorKind,
    pub cause: Option<Box<Error>>,
}

/// The short description of an error of kind `kind`.
pub open spec fn kind_text(kind: ErrorKind) -> Seq<char> {
    match kind {
        ErrorKind::Msg(m) => m@,
        ErrorKind::Git(m) => m@,
        ErrorKind::Serde(m) => m@,
        ErrorKind::GPGME(m) => m@,
        ErrorKind::IO(m) => m@,
        ErrorKind::InvalidRSL => "invalid remote RSL"@,
        ErrorKind::MismatchedNonce => "Nonce not found"@,
    }
}

/// The descriptions of an error and of its causes, outermost first.
pub open spec fn error_texts(e: Error) -> Seq<Seq<char>>
    decreases e,
{
    match e.cause {
        None => seq![kind_text(e.kind)],
        Some(c) => seq![kind_text(e.kind)] + error_texts(*c),
    }
}

impl Error {
    /// The error is a plain message with this text.
    pub open spec fn is_msg(self, text: Seq<char>) -> bool {
        self.kind matches ErrorKind::Msg(m) && m@ == text
    }

    /// An error with the given message and no cause.
    pub fn msg(text: &str) -> (res: Error)
        ensures
            res.kind matches ErrorKind::Msg(m) && m@ == text@,
            res.cause is None,
    {
        Error { kind: ErrorKind::Msg(text.to_string()), cause: None }
    }

    /// An error of the given kind and no cause.
    pub fn from_kind(kind: ErrorKind) -> (res: Error)
        ensures
            res.kind == kind,
            res.cause is None,
    {
        Error { kind, cause: None }
    }

    /// The short description of the error.
    pub fn description(&self) -> (res: String)
        ensures
            res@ == kind_text(self.kind),
    {
        match &self.kind {
            ErrorKind::Msg(m) => m.clone(),
            ErrorKind::Git(m) => m.clone(),
            ErrorKind::Serde(m) => m.clone(),
            ErrorKind::GPGME(m) => m.clone(),
            ErrorKind::IO(m) => m.clone(),
            ErrorKind::InvalidRSL => "invalid remote RSL".to_string(),
            ErrorKind::MismatchedNonce => "Nonce not found".to_string(),
        }
    }

    /// The descriptions of the error and of its causes, outermost first.
    pub fn descriptions(&self) -> (res: Vec<String>)
        ensures
            res@.map_values(|t: String| t@) == error_texts(*self),
        decreases self,
    {
        let mut out: Vec<String> = Vec::new();
        out.push(self.description());
        match &self.cause {
            None => {
                assert(out@.map_values(|t: String| t@) =~= error_texts(*self));
            },
            Some(c) => {
                let mut rest = c.descriptions();
                let ghost first = out@;
                out.append(&mut rest);
                assert(out@.map_values(|t: String| t@) =~= first.map_values(|t: String| t@)
                    + error_texts(**c));
            },
        }
        out
    }

    /// Wraps `self` as the cause of a new error of kind `kind`.
    pub fn chain(self, kind: ErrorKind) -> (res: Error)
        ensures
            res.kind == kind,
            res.cause == Some(Box::new(self)),
    {
        Error { kind, cause: Some(Box::new(self)) }
    }
}

} // verus!
