//! The identity activator: from the chosen account it computes the exact
//! plan of mutations — which stale links to delete, where the two new
//! symlinks point, and the two configuration values to set. The plan is a
//! pure function of the account and the observed link existence; carrying
//! it out is file-system and process work that happens outside.

use vstd::prelude::*;
use vstd::string::StringExecFns;
use crate::account::Account;
use crate::selector::{spec_resolve, Selection};
use crate::text::dec_rep;

verus! {

/// The plan's fields as plain character sequences.
#[verifier::ext_equal]
pub struct PlanView {
    pub remove_private: bool,
    pub remove_public: bool,
    pub private_source: Seq<char>,
    pub public_source: Seq<char>,
    pub private_dest: Seq<char>,
    pub public_dest: Seq<char>,
    pub user_name: Seq<char>,
    pub user_email: Seq<char>,
}

/// Everything the activation of one account mutates, computed up front:
/// each destination that currently exists is deleted, then a symlink is
/// created at each destination pointing at the account's key file, then
/// the two global configuration values are set.
pub struct ActivationPlan {
    /// Delete the existing private-key destination first.
    pub remove_private: bool,
    /// Delete the existing public-key destination first.
    pub remove_public: bool,
    /// Target of the new private-key link, relative to the configuration
    /// directory: `accounts/<key>`.
    pub private_source: String,
    /// Target of the new public-key link: `accounts/<key>.pub`.
    pub public_source: String,
    /// The fixed private-key destination, `id_rsa`.
    pub private_dest: String,
    /// The fixed public-key destination, `id_rsa.pub`.
    pub public_dest: String,
    /// The value the global `user.name` setting is overwritten with.
    pub user_name: String,
    /// The value the global `user.email` setting is overwritten with.
    pub user_email: String,
}

impl View for ActivationPlan {
    type V = PlanView;

    open spec fn view(&self) -> PlanView {
        PlanView {
            remove_private: self.remove_private,
            remove_public: self.remove_public,
            private_source: self.private_source@,
            public_source: self.public_source@,
            private_dest: self.private_dest@,
            public_dest: self.public_dest@,
            user_name: self.user_name@,
            user_email: self.user_email@,
        }
    }
}

/// The plan for one account `(key, name, email)`: existing destinations
/// are removed, the links point into the `accounts` directory under the
/// account's key, and the configuration takes the account's name and
/// email.
pub open spec fn spec_plan(
    account: (Seq<char>, Seq<char>, Seq<char>),
    private_link_exists: bool,
    public_link_exists: bool,
) -> PlanView {
    PlanView {
        remove_private: private_link_exists,
        remove_public: public_link_exists,
        private_source: "accounts/"@ + account.0,
        public_source: "accounts/"@ + account.0 + ".pub"@,
        private_dest: "id_rsa"@,
        public_dest: "id_rsa.pub"@,
        user_name: account.1,
        user_email: account.2,
    }
}

/// Computes the activation plan for `account`, given whether each of the
/// two destinations currently exists (as a file or a link, undereferenced).
pub fn plan_activation(
    account: &Account,
    private_link_exists: bool,
    public_link_exists: bool,
) -> (p: ActivationPlan)
    ensures
        p@ == spec_plan(account@, private_link_exists, public_link_exists),
{
    let mut private_source = "accounts/".to_owned();
    private_source.append(account.key.as_str());
    let mut public_source = "accounts/".to_owned();
    public_source.append(account.key.as_str());
    public_source.append(".pub");
    let p = ActivationPlan {
        remove_private: private_link_exists,
        remove_public: public_link_exists,
        private_source,
        public_source,
        private_dest: "id_rsa".to_owned(),
        public_dest: "id_rsa.pub".to_owned(),
        user_name: account.name.clone(),
        user_email: account.email.clone(),
    };
    proof {
        assert(p@ =~= spec_plan(account@, private_link_exists, public_link_exists));
    }
    p
}

/// The fixed private-key destination at the top of the configuration
/// directory.
pub fn private_link_name() -> (s: &'static str)
    ensures
        s@ == "id_rsa"@,
{
    "id_rsa"
}

/// The fixed public-key destination at the top of the configuration
/// directory.
pub fn public_link_name() -> (s: &'static str)
    ensures
        s@ == "id_rsa.pub"@,
{
    "id_rsa.pub"
}

/// The startup line showing where the private-key destination currently
/// points, or that no key is set.
pub fn current_key_line(target: Option<&str>) -> (line: String)
    ensures
        match target {
            Some(t) => line@ == "Current key: "@ + t@,
            None => line@ == "SSH key not set"@,
        },
{
    match target {
        Some(t) => {
            let mut line = "Current key: ".to_owned();
            line.append(t);
            line
        },
        None => "SSH key not set".to_owned(),
    }
}

/// Which of the two key links an activation step was working on when it
/// failed.
#[derive(Clone, Copy, PartialEq, Eq, Structural, Debug)]
pub enum LinkKind {
    Private,
    Public,
}

/// The diagnostic for a failed deletion of a stale link.
pub fn remove_failure_message(kind: LinkKind) -> (m: String)
    ensures
        kind is Private ==> m@ == "Could not delete current symlinked private key."@,
        kind is Public ==> m@ == "Could not delete current symlinked public key."@,
{
    match kind {
        LinkKind::Private => "Could not delete current symlinked private key.".to_owned(),
        LinkKind::Public => "Could not delete current symlinked public key.".to_owned(),
    }
}

/// The diagnostic for a failed creation of a new link.
pub fn create_failure_message(kind: LinkKind) -> (m: String)
    ensures
        kind is Private ==> m@ == "Could not create private key symlink."@,
        kind is Public ==> m@ == "Could not create public key symlink."@,
{
    match kind {
        LinkKind::Private => "Could not create private key symlink.".to_owned(),
        LinkKind::Public => "Could not create public key symlink.".to_owned(),
    }
}

/// Which global configuration value was being set when starting the
/// external tool failed.
#[derive(Clone, Copy, PartialEq, Eq, Structural, Debug)]
pub enum ConfigSetting {
    Email,
    Name,
}

/// The configuration key the external tool is invoked with.
pub fn config_key(setting: ConfigSetting) -> (s: &'static str)
    ensures
        setting is Email ==> s@ == "user.email"@,
        setting is Name ==> s@ == "user.name"@,
{
    match setting {
        ConfigSetting::Email => "user.email",
        ConfigSetting::Name => "user.name",
    }
}

/// The diagnostic for a configuration invocation that could not start.
pub fn config_failure_message(setting: ConfigSetting) -> (m: String)
    ensures
        setting is Email ==> m@ == "Error changing git email"@,
        setting is Name ==> m@ == "Error changing git name"@,
{
    match setting {
        ConfigSetting::Email => "Error changing git email".to_owned(),
        ConfigSetting::Name => "Error changing git name".to_owned(),
    }
}

/// Law: for a registry of N accounts and any n with 1 <= n <= N, entering
/// the numeral of n resolves to the account at index n-1, and that
/// account's plan links `id_rsa` to `accounts/<key>` and `id_rsa.pub` to
/// `accounts/<key>.pub`, and overwrites the global name and email with
/// that account's fields.
pub proof fn lemma_in_range_selection_activates(
    registry: Seq<(Seq<char>, Seq<char>, Seq<char>)>,
    n: usize,
    private_link_exists: bool,
    public_link_exists: bool,
)
    requires
        1 <= n <= registry.len(),
    ensures
        ({
            let sel = spec_resolve(dec_rep(n as nat), registry.len() as int);
            let plan = spec_plan(registry[n - 1], private_link_exists, public_link_exists);
            &&& sel == Selection::Chosen((n - 1) as usize)
            &&& plan.private_dest == "id_rsa"@
            &&& plan.private_source == "accounts/"@ + registry[n - 1].0
            &&& plan.public_dest == "id_rsa.pub"@
            &&& plan.public_source == "accounts/"@ + registry[n - 1].0 + ".pub"@
            &&& plan.user_name == registry[n - 1].1
            &&& plan.user_email == registry[n - 1].2
        }),
{
    let input = dec_rep(n as nat);
    crate::text::lemma_dec_rep_digits(n as nat);
    crate::text::lemma_dec_rep_val(n as nat);
    crate::selector::lemma_digit_seq_is_not_quit(input);
}

/// Law: the links and configuration values of a plan depend on the account
/// alone — rerunning the activation for the same account, whatever the
/// destinations look like by then, deletes and recreates identical links
/// and rewrites identical configuration values.
pub proof fn lemma_activation_idempotent(
    account: (Seq<char>, Seq<char>, Seq<char>),
    e1: bool,
    e2: bool,
    f1: bool,
    f2: bool,
)
    ensures
        spec_plan(account, e1, e2).private_source == spec_plan(account, f1, f2).private_source,
        spec_plan(account, e1, e2).public_source == spec_plan(account, f1, f2).public_source,
        spec_plan(account, e1, e2).private_dest == spec_plan(account, f1, f2).private_dest,
        spec_plan(account, e1, e2).public_dest == spec_plan(account, f1, f2).public_dest,
        spec_plan(account, e1, e2).user_name == spec_plan(account, f1, f2).user_name,
        spec_plan(account, e1, e2).user_email == spec_plan(account, f1, f2).user_email,
{
}

} // verus!
