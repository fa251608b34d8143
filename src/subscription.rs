use vstd::prelude::*;
use crate::error::DbusMaliitServerError;

verus! {

/// The state that registering a subscription with token `token` leads to
/// from `s`: a live subscription is kept, never replaced.
pub open spec fn after_start(s: Option<usize>, token: usize) -> Option<usize> {
    match s {
        Some(_) => s,
        None => Some(token),
    }
}

/// The token of the live match registration, if there is one.
pub struct Subscription {
    token: Option<usize>,
}

impl View for Subscription {
    type V = Option<usize>;

    closed spec fn view(&self) -> Option<usize> {
        self.token
    }
}

impl Subscription {
    pub fn new() -> (r: Subscription)
        ensures
            r@ == None::<usize>,
    {
        Subscription { token: None }
    }

    pub fn is_active(&self) -> (r: bool)
        ensures
            r == self@ is Some,
    {
        self.token.is_some()
    }

    /// Records a new registration. Fails, keeping the live one, where a
    /// subscription is already live.
    pub fn record(&mut self, token: usize) -> (r: Result<(), DbusMaliitServerError>)
        ensures
            final(self)@ == after_start(old(self)@, token),
            r is Ok <==> old(self)@ is None,
            r is Err ==> r->Err_0 is AlreadySubscribed,
    {
        if self.token.is_some() {
            Err(DbusMaliitServerError::AlreadySubscribed)
        } else {
            self.token = Some(token);
            Ok(())
        }
    }

    /// Ends the subscription: hands out its token, if any was live, and
    /// leaves none.
    pub fn take(&mut self) -> (r: Option<usize>)
        ensures
            r == old(self)@,
            final(self)@ == None::<usize>,
    {
        let r = self.token;
        self.token = None;
        r
    }
}

/// Starting event processing twice leaves the first registration live and
/// no second one: a message is delivered to one decoder only.
pub proof fn lemma_no_duplicate_subscription(s: Option<usize>, first: usize, second: usize)
    ensures
        after_start(after_start(s, first), second) == after_start(s, first),
        s is None ==> after_start(after_start(s, first), second) == Some(first),
{
}

} // verus!
