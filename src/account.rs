use vstd::prelude::*;

verus! {

/// The result of `str::trim` on a string: what is left once leading and
/// trailing whitespace is removed.
pub uninterp spec fn trimmed(s: Seq<char>) -> Seq<char>;

/// Relies on `str::trim`: the result depends on the characters alone.
#[verifier::external_body]
fn trim_whitespace(s: &String) -> (r: String)
    ensures
        r@ == trimmed(s@),
{
    s.trim().to_string()
}

/// How the secure channel to the server is obtained.
#[derive(Clone, Copy, Debug, PartialEq, Eq, Structural)]
pub enum Transport {
    /// The connection is encrypted from the first byte.
    ImplicitTls,
    /// The connection starts in plaintext and is upgraded in place.
    StartTls,
}

/// One watched mail account, with its secret already resolved.
#[derive(Clone, Debug)]
pub struct Account {
    pub host: String,
    pub port: u16,
    pub starttls: bool,
    pub username: String,
    pub password: String,
    pub on_new_mail: String,
    pub on_new_mail_post: Option<String>,
    pub boxes: Vec<String>,
}

/// Why the set of accounts cannot be served.
#[derive(Clone, Copy, Debug, PartialEq, Eq, Structural)]
pub enum StartupError {
    /// No account was configured.
    NoAccounts,
    /// The account at this position breaks the descriptor's invariant.
    InvalidAccount(usize),
    /// No account could be connected.
    NoConnections,
}

impl Account {
    /// The transport used when none is configured: plaintext upgraded in place.
    pub fn default_starttls() -> (r: bool)
        ensures
            r == true,
    {
        true
    }

    /// The port used when none is configured.
    pub fn default_port() -> (r: u16)
        ensures
            r == 143,
    {
        143
    }

    /// A usable descriptor: a host, a positive port and at least one mailbox.
    pub open spec fn wf(&self) -> bool {
        &&& self.host@.len() > 0
        &&& self.port > 0
        &&& self.boxes@.len() >= 1
    }

    pub fn is_valid(&self) -> (r: bool)
        ensures
            r == self.wf(),
    {
        self.host.as_str().unicode_len() > 0 && self.port > 0 && self.boxes.len() >= 1
    }

    pub open spec fn spec_transport(&self) -> Transport {
        if self.starttls {
            Transport::StartTls
        } else {
            Transport::ImplicitTls
        }
    }

    pub fn transport(&self) -> (r: Transport)
        ensures
            r == self.spec_transport(),
    {
        if self.starttls {
            Transport::StartTls
        } else {
            Transport::ImplicitTls
        }
    }

    /// The user name sent to the server, without surrounding whitespace.
    pub fn login_username(&self) -> (r: String)
        ensures
            r@ == trimmed(self.username@),
    {
        trim_whitespace(&self.username)
    }

    /// The secret sent to the server, without surrounding whitespace.
    pub fn login_password(&self) -> (r: String)
        ensures
            r@ == trimmed(self.password@),
    {
        trim_whitespace(&self.password)
    }
}

/// Accepts a list of descriptors when it is non-empty and each one is
/// well formed; otherwise names the first fault.
pub fn validate_accounts(accounts: Vec<Account>) -> (r: Result<Vec<Account>, StartupError>)
    ensures
        accounts@.len() == 0 ==> r == Err::<Vec<Account>, StartupError>(StartupError::NoAccounts),
        accounts@.len() > 0 ==> match r {
            Ok(v) => v@ == accounts@ && forall|i: int| 0 <= i < accounts@.len() ==> #[trigger] accounts@[i].wf(),
            Err(StartupError::InvalidAccount(k)) => k < accounts@.len() && !accounts@[k as int].wf()
                && forall|i: int| 0 <= i < k ==> #[trigger] accounts@[i].wf(),
            Err(_) => false,
        },
{
    if accounts.len() == 0 {
        return Err(StartupError::NoAccounts);
    }
    let mut i: usize = 0;
    while i < accounts.len()
        invariant
            0 <= i <= accounts@.len(),
            forall|j: int| 0 <= j < i ==> #[trigger] accounts@[j].wf(),
        decreases accounts@.len() - i,
    {
        if !accounts[i].is_valid() {
            return Err(StartupError::InvalidAccount(i));
        }
        i = i + 1;
    }
    Ok(accounts)
}

} // verus!
