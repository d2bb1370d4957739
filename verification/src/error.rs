use vstd::prelude::*;

verus! {

/// Errors of the SDK; each variant carries a human-readable detail.
#[derive(Debug)]
pub enum DIDError {
    /// A DID or DID URL string is malformed.
    InvalidDid(String),
    /// An argument is out of range or not supported.
    InvalidArgument(String),
    /// A signature failed validation.
    InvalidSignature(String),
    /// A topic, message, document or resource is missing.
    NotFound(String),
    /// A network, system or timeout failure.
    InternalError(String),
    /// An encoding or decoding failure.
    SerializationError(String),
}

/// The label of an error's kind, as its text starts.
pub open spec fn kind_label(e: DIDError) -> Seq<char> {
    match e {
        DIDError::InvalidDid(_) => "Invalid DID"@,
        DIDError::InvalidArgument(_) => "Invalid argument"@,
        DIDError::InvalidSignature(_) => "Invalid signature"@,
        DIDError::NotFound(_) => "Not found"@,
        DIDError::InternalError(_) => "Internal error"@,
        DIDError::SerializationError(_) => "Serialization error"@,
    }
}

impl DIDError {
    /// The detail text carried by the error.
    pub open spec fn message(self) -> Seq<char> {
        match self {
            DIDError::InvalidDid(m) => m@,
            DIDError::InvalidArgument(m) => m@,
            DIDError::InvalidSignature(m) => m@,
            DIDError::NotFound(m) => m@,
            DIDError::InternalError(m) => m@,
            DIDError::SerializationError(m) => m@,
        }
    }

    /// The text of the error: its kind's label, `": "`, and its detail.
    pub fn to_string(&self) -> (s: String)
        ensures
            s@ == kind_label(*self) + ": "@ + self.message(),
    {
        let (label, detail) = match self {
            DIDError::InvalidDid(m) => ("Invalid DID", m),
            DIDError::InvalidArgument(m) => ("Invalid argument", m),
            DIDError::InvalidSignature(m) => ("Invalid signature", m),
            DIDError::NotFound(m) => ("Not found", m),
            DIDError::InternalError(m) => ("Internal error", m),
            DIDError::SerializationError(m) => ("Serialization error", m),
        };
        let mut s = label.to_owned();
        s.append(": ");
        s.append(detail.as_str());
        s
    }
}

} // verus!
