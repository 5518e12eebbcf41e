use vstd::prelude::*;

verus! {

/// Why a fill request could not be turned into a signed transaction.
///
/// Every error is terminal for the request that raised it.
#[derive(Clone, Copy, Debug, PartialEq, Eq, Structural)]
pub enum FillError {
    /// The fee schedule has no settlement fee for the sold token.
    Configuration,
    /// Funding was requested but the account holds no funding credential.
    MissingCredential,
    /// An amount in the request is not a decimal number.
    Parse,
    /// The intent breaks a structural constraint of the ledger format.
    Serialization,
    /// A collaborator outside the pipeline failed; the pipeline itself
    /// never returns this.
    Upstream,
}

impl FillError {
    /// The text reported to the caller for this error.
    pub fn message(&self) -> (text: &'static str)
        ensures
            text@ == self.message_text(),
    {
        match self {
            FillError::Configuration => "no settlement fee configured for token",
            FillError::MissingCredential => "cannot fund without credential",
            FillError::Parse => "malformed decimal amount",
            FillError::Serialization => "intent violates ledger format constraints",
            FillError::Upstream => "upstream collaborator failed",
        }
    }

    /// The characters of [`FillError::message`].
    pub open spec fn message_text(&self) -> Seq<char> {
        match self {
            FillError::Configuration => "no settlement fee configured for token"@,
            FillError::MissingCredential => "cannot fund without credential"@,
            FillError::Parse => "malformed decimal amount"@,
            FillError::Serialization => "intent violates ledger format constraints"@,
            FillError::Upstream => "upstream collaborator failed"@,
        }
    }
}

} // verus!
