use vstd::prelude::*;

verus! {

/// The failure kinds of the manager. Every invocation either completes in
/// full or reports exactly one of these; a failed invocation leaves no
/// partial effects behind.
#[derive(Clone, Copy, Debug, PartialEq, Eq, Structural)]
pub enum AccessError {
    /// The custody slot already holds the managing-authority badge.
    AuthorityAlreadyPresent,
    /// A deposit carried an amount other than exactly one unit.
    InvalidAmount,
    /// The custody slot is empty but the operation needs the authority badge.
    AuthorityAbsent,
    /// The presented credential lacks the permission the operation requires.
    PermissionDenied,
    /// A key holder tried to grant rights beyond its own set, or a super
    /// right, to a new access key badge.
    SuperPermissionEscalation,
    /// The presented credential belongs to neither badge class the manager
    /// recognises.
    UnrecognizedCredential,
    /// A permission tag string does not name any known permission.
    InvalidPermissionTag,
    /// A recall aimed at a location that holds no badge unit.
    RecallTargetEmpty,
    /// The call forwarded to the delegate target was not carried out.
    DelegateCallFailed,
}

} // verus!
