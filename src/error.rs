use vstd::prelude::*;

verus! {

/// The stage at which the login token could not be read from the page.
#[derive(Clone, Copy, Debug, PartialEq, Eq, Structural)]
pub enum TokenStage {
    /// The document could not be parsed.
    Unparsed,
    /// The field name is not a plain name (ASCII letters, digits, `-`, `_`),
    /// or the selector built from it is refused.
    InvalidSelector,
    /// No element matches the selector.
    NoMatch,
    /// The matching node is not an element.
    NotAnElement,
    /// The element has no `value` attribute.
    NoValueAttribute,
    /// The `value` attribute is present but carries no text.
    ValueWithoutText,
}

/// The errors of the session subsystem.
#[derive(Clone, Copy, Debug, PartialEq, Eq, Structural)]
pub enum ClientError {
    /// Transport failure, or a JSON-typed body that is not JSON.
    Network,
    /// The login page holds no usable token; the stage says where it failed.
    TokenNotFound(TokenStage),
    /// Transport failure while submitting the login form.
    AuthSubmission,
    /// The session is still reported expired after one login and one retry.
    AuthenticationFailed,
    /// The cookie jar could not be cleared when the credentials changed.
    CredentialUpdate,
}

} // verus!
