//! How outgoing requests are dressed: which user agents to present, which
//! cookie to send, and which proxy comes next.
use vstd::prelude::*;

verus! {

/// The user agent presented by every request.
pub open spec fn mobile_chrome_agent() -> Seq<char> {
    "Mozilla/5.0 (Linux; Android 10; K) AppleWebKit/537.36 (KHTML, like Gecko) Chrome/124.0.0.0 Mobile Safari/537.36"@
}

/// Which kinds of browser the user agents of a request may impersonate.
pub struct UserAgentList {
    include_pc: bool,
    include_phone: bool,
}

impl View for UserAgentList {
    /// (desktop agents included, phone agents included)
    type V = (bool, bool);

    closed spec fn view(&self) -> (bool, bool) {
        (self.include_pc, self.include_phone)
    }
}

impl UserAgentList {
    /// A list that includes neither kind.
    pub fn new() -> (r: Self)
        ensures
            r@ == (false, false),
    {
        UserAgentList { include_pc: false, include_phone: false }
    }

    /// The same list, with desktop agents included.
    pub fn pc(self) -> (r: Self)
        ensures
            r@ == (true, self@.1),
    {
        UserAgentList { include_pc: true, include_phone: self.include_phone }
    }

    /// The same list, with phone agents included.
    pub fn phone(self) -> (r: Self)
        ensures
            r@ == (self@.0, true),
    {
        UserAgentList { include_pc: self.include_pc, include_phone: true }
    }

    /// The same list, with desktop agents left out.
    pub fn no_pc(self) -> (r: Self)
        ensures
            r@ == (false, self@.1),
    {
        UserAgentList { include_pc: false, include_phone: self.include_phone }
    }

    /// The same list, with phone agents left out.
    pub fn no_phone(self) -> (r: Self)
        ensures
            r@ == (self@.0, false),
    {
        UserAgentList { include_pc: self.include_pc, include_phone: false }
    }

    /// The user agent to present next. Every list currently presents the
    /// same mobile Chrome agent.
    pub fn get_random(&self) -> (r: String)
        ensures
            r@ == mobile_chrome_agent(),
    {
        "Mozilla/5.0 (Linux; Android 10; K) AppleWebKit/537.36 (KHTML, like Gecko) Chrome/124.0.0.0 Mobile Safari/537.36".to_owned()
    }
}

/// The settings a request is sent with: the user agents to choose from and
/// an optional cookie header.
pub struct RequestSender {
    user_agent_list: UserAgentList,
    cookie: Option<String>,
}

impl RequestSender {
    /// The user agents requests choose from.
    pub closed spec fn agents(&self) -> (bool, bool) {
        self.user_agent_list@
    }

    /// The cookie requests carry, if any.
    pub closed spec fn cookie_value(&self) -> Option<Seq<char>> {
        match self.cookie {
            Some(c) => Some(c@),
            None => None,
        }
    }

    /// A sender with an empty user-agent list and no cookie.
    pub fn new() -> (r: Self)
        ensures
            r.agents() == (false, false),
            r.cookie_value() is None,
    {
        RequestSender { user_agent_list: UserAgentList::new(), cookie: None }
    }

    /// The same sender, choosing user agents from `user_agent_list`.
    pub fn user_agent(self, user_agent_list: UserAgentList) -> (r: Self)
        ensures
            r.agents() == user_agent_list@,
            r.cookie_value() == self.cookie_value(),
    {
        RequestSender { user_agent_list, cookie: self.cookie }
    }

    /// The same sender, sending `cookie` with every request.
    pub fn cookie(self, cookie: String) -> (r: Self)
        ensures
            r.agents() == self.agents(),
            r.cookie_value() == Some(cookie@),
    {
        RequestSender { user_agent_list: self.user_agent_list, cookie: Some(cookie) }
    }

    pub fn user_agent_list(&self) -> (r: &UserAgentList)
        ensures
            r@ == self.agents(),
    {
        &self.user_agent_list
    }

    pub fn cookie_header(&self) -> (r: Option<&str>)
        ensures
            match r {
                Some(c) => self.cookie_value() == Some(c@),
                None => self.cookie_value() is None,
            },
    {
        match &self.cookie {
            Some(c) => Some(c.as_str()),
            None => None,
        }
    }
}

/// Round-robin over `len` proxies: the slot that follows `current`, going
/// back to the first after the last.
pub open spec fn next_slot(current: int, len: int) -> int {
    if current >= len - 1 {
        0
    } else {
        current + 1
    }
}

/// The index of the proxy to use after the one at `current`, in a list of
/// `len` proxies.
pub fn next_proxy_index(current: usize, len: usize) -> (r: usize)
    requires
        len > 0,
    ensures
        r == next_slot(current as int, len as int),
        r < len,
{
    if current >= len - 1 {
        0
    } else {
        current + 1
    }
}

/// How many times a page fetch is attempted before its error is reported.
pub const MAX_ATTEMPTS: u32 = 3;

/// What to do after attempt number `attempt` (counted from 1) has failed.
#[derive(Clone, Copy, Debug, PartialEq, Eq, Structural)]
pub enum RetryStep {
    /// Wait, then make the next attempt.
    Retry,
    /// Report this attempt's error.
    GiveUp,
}

pub fn after_failed_attempt(attempt: u32) -> (r: RetryStep)
    ensures
        r == (if attempt >= MAX_ATTEMPTS {
            RetryStep::GiveUp
        } else {
            RetryStep::Retry
        }),
{
    if attempt >= MAX_ATTEMPTS {
        RetryStep::GiveUp
    } else {
        RetryStep::Retry
    }
}

} // verus!
