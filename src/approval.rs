use crate::services::ApprovalService;
use crate::types::{ApplicationParameter, IoError};
use vstd::prelude::*;

verus! {

/// An approval service that answers from two fixed settings, without asking
/// anyone.
pub struct FakeApprovalService {
    pub should_approve_authentication: bool,
    pub should_approve_registration: bool,
}

impl FakeApprovalService {
    /// Approves every ceremony.
    pub fn always_approve() -> (r: FakeApprovalService)
        ensures
            r.should_approve_authentication,
            r.should_approve_registration,
    {
        FakeApprovalService { should_approve_authentication: true, should_approve_registration: true }
    }
}

impl ApprovalService for FakeApprovalService {
    open spec fn reliable(&self) -> bool {
        true
    }

    open spec fn channel_error(&self) -> IoError {
        IoError::Approval
    }

    open spec fn grants_registration(&self, application: Seq<u8>) -> bool {
        self.should_approve_registration
    }

    open spec fn grants_authentication(&self, application: Seq<u8>) -> bool {
        self.should_approve_authentication
    }

    fn approve_registration(&self, application: &ApplicationParameter) -> (r: Result<bool, IoError>) {
        Ok(self.should_approve_registration)
    }

    fn approve_authentication(&self, application: &ApplicationParameter) -> (r: Result<bool, IoError>) {
        Ok(self.should_approve_authentication)
    }
}

} // verus!
