use vstd::prelude::*;

verus! {

/// The library's error taxonomy.
///
/// `VerifyError` marks an event that failed schema validation,
/// `HostError` a bad configuration from the embedding host,
/// `InternalError` a broken internal invariant, `RuntimeError` an
/// operational failure, `NetworkError` and `RemoteError` upload transport
/// and remote-response failures, and `WithContext` wraps a cause with a
/// human-readable context line.
#[derive(Debug)]
pub enum DTError {
    VerifyError(String),
    InternalError(String),
    RuntimeError(String),
    NetworkError(String),
    WithContext { context: String, cause: Box<DTError> },
    RemoteError(String),
    HostError(String),
}

/// The rendered message of an error, with the classification prefixes.
pub open spec fn spec_message(e: DTError) -> Seq<char>
    decreases e,
{
    match e {
        DTError::VerifyError(m) => m@,
        DTError::InternalError(m) => "[Internal] "@ + m@,
        DTError::RuntimeError(m) => m@,
        DTError::NetworkError(m) => "[Network] "@ + m@,
        DTError::WithContext { context, cause } => context@ + "\n* With: "@ + spec_message(*cause),
        DTError::RemoteError(m) => "[Remote] "@ + m@,
        DTError::HostError(m) => m@,
    }
}

impl DTError {
    /// Renders the error as one message string.
    pub fn message(&self) -> (r: String)
        ensures
            r@ == spec_message(*self),
        decreases *self,
    {
        match self {
            DTError::VerifyError(m) => m.clone(),
            DTError::InternalError(m) => String::from_str("[Internal] ").concat(m.as_str()),
            DTError::RuntimeError(m) => m.clone(),
            DTError::NetworkError(m) => String::from_str("[Network] ").concat(m.as_str()),
            DTError::WithContext { context, cause } => {
                let mut out = context.clone();
                out.append("\n* With: ");
                let inner = cause.message();
                out.append(inner.as_str());
                out
            },
            DTError::RemoteError(m) => String::from_str("[Remote] ").concat(m.as_str()),
            DTError::HostError(m) => m.clone(),
        }
    }

    /// The wrapped cause, for `WithContext`; nothing otherwise.
    pub fn source(&self) -> (r: Option<&DTError>)
        ensures
            match r {
                Some(c) => self matches DTError::WithContext { cause, .. } && *c == *cause,
                None => !(self is WithContext),
            },
    {
        match self {
            DTError::WithContext { cause, .. } => Some(cause),
            _ => None,
        }
    }
}

/// Flattens an operation's outcome into a success flag, as the host
/// bindings expect; the error itself is discarded.
pub fn dissolve_bool<T, E>(result: Result<T, DTError>) -> (r: Result<bool, E>)
    ensures
        r matches Ok(b) && b == (result is Ok),
{
    match result {
        Ok(_) => Ok(true),
        Err(_) => Ok(false),
    }
}

/// Swallows an operation's outcome entirely.
pub fn dissolve<T, E>(result: Result<T, DTError>) -> (r: Result<(), E>)
    ensures
        r is Ok,
{
    let _ = result;
    Ok(())
}

} // verus!
