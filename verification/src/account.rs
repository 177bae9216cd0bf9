//! Account registration: the identity, registrar and credential of one SIP
//! account, derived from a user name, a registrar host and a password.
use crate::engine::{
    settle, settled, AccountConfig, AccountConfigView, Credential, CredentialData, CredentialView,
    EngineOp, EngineOpView, Step, StepView,
};
use crate::error::{ErrorKind, TelephonyError, TelephonyErrorView};
use crate::marshal::{has_nul, make_pj_str_t, marshalled, rejected_input};
use vstd::prelude::*;
use vstd::string::StringExecFns;

verus! {

/// The authentication realm of every account.
pub const REALM_GLOBAL: &'static str = "asterisk";

/// The SIP URI of a user at a host: `sip:<user>@<host>`.
pub open spec fn sip_uri(user: Seq<char>, host: Seq<char>) -> Seq<char> {
    "sip:"@ + user + "@"@ + host
}

/// The SIP URI of a host: `sip:<host>`.
pub open spec fn host_uri(host: Seq<char>) -> Seq<char> {
    "sip:"@ + host
}

/// The configuration of the account of a user at a registrar: the identity
/// is the user's URI, the registration target the registrar's URI, and the
/// one credential holds the fixed realm, the registrar host as scheme, and
/// the user name with the password in plain text.
pub open spec fn account_config(username: Seq<char>, uri: Seq<char>, password: Seq<char>) -> AccountConfigView {
    AccountConfigView {
        id: marshalled(sip_uri(username, uri)),
        reg_uri: marshalled(host_uri(uri)),
        cred_count: 1,
        cred_info: seq![
            CredentialView {
                realm: marshalled(REALM_GLOBAL@),
                scheme: marshalled(uri),
                username: marshalled(username),
                data_type: CredentialData::PlainPassword,
                data: marshalled(password),
            },
        ],
    }
}

/// The error of a registration that the engine refused.
pub open spec fn account_failure() -> TelephonyErrorView {
    TelephonyErrorView { kind: ErrorKind::AccountCreationError, detail: "Error Adding Account"@ }
}

/// What `accountSetup` does. A null byte in the user name or the host makes
/// the identity unusable, one in the password the credential: the input is
/// rejected, whatever the engine may have answered, and the engine is not
/// asked. Otherwise the account is registered as the default account, and
/// the engine's status decides.
pub open spec fn account_plan(
    username: Seq<char>,
    uri: Seq<char>,
    password: Seq<char>,
    replies: Seq<i32>,
) -> StepView {
    if has_nul(username) || has_nul(uri) {
        StepView::Finished(Err(rejected_input(sip_uri(username, uri))))
    } else if has_nul(password) {
        StepView::Finished(Err(rejected_input(password)))
    } else {
        settled(
            EngineOpView::RegisterAccount {
                config: account_config(username, uri, password),
                make_default: true,
            },
            replies,
            account_failure(),
        )
    }
}

/// A text put together from two holds U+0000 exactly when one of them does.
pub proof fn lemma_has_nul_concat(a: Seq<char>, b: Seq<char>)
    ensures
        has_nul(a + b) <==> has_nul(a) || has_nul(b),
{
    if has_nul(a) {
        let i = choose|i: int| 0 <= i < a.len() && a[i] == '\0';
        assert((a + b)[i] == '\0');
    }
    if has_nul(b) {
        let i = choose|i: int| 0 <= i < b.len() && b[i] == '\0';
        assert((a + b)[a.len() + i] == '\0');
    }
    if has_nul(a + b) {
        let i = choose|i: int| 0 <= i < (a + b).len() && (a + b)[i] == '\0';
        if i < a.len() {
            assert(a[i] == '\0');
        } else {
            assert(b[i - a.len()] == '\0');
        }
    }
}

/// The fixed parts of the URIs and the realm hold no U+0000.
pub proof fn lemma_fixed_texts()
    ensures
        !has_nul("sip:"@),
        !has_nul("@"@),
        !has_nul(REALM_GLOBAL@),
{
    reveal_strlit("sip:");
    reveal_strlit("@");
    reveal_strlit("asterisk");
}

/// A SIP URI holds U+0000 exactly when the user or the host does.
pub proof fn lemma_sip_uri_nul(user: Seq<char>, host: Seq<char>)
    ensures
        has_nul(sip_uri(user, host)) <==> has_nul(user) || has_nul(host),
        has_nul(host_uri(host)) <==> has_nul(host),
{
    lemma_fixed_texts();
    lemma_has_nul_concat("sip:"@, user);
    lemma_has_nul_concat("sip:"@ + user, "@"@);
    lemma_has_nul_concat("sip:"@ + user + "@"@, host);
    lemma_has_nul_concat("sip:"@, host);
}

/// A null byte in the user name, the host or the password ends the
/// registration with `InputValueError`, whatever the engine may have
/// answered: at no point is the engine asked to register the account. With no
/// null byte in them the input is never rejected.
pub proof fn lemma_account_rejects_nul(
    username: Seq<char>,
    uri: Seq<char>,
    password: Seq<char>,
    replies: Seq<i32>,
)
    ensures
        has_nul(username) || has_nul(uri) || has_nul(password) <==> (account_plan(
            username,
            uri,
            password,
            replies,
        ) matches StepView::Finished(Err(e)) && e.kind == ErrorKind::InputValueError),
        has_nul(username) || has_nul(uri) || has_nul(password) ==> !(account_plan(
            username,
            uri,
            password,
            replies,
        ) is Perform),
{
}

/// Builds `sip:<user>@<host>`.
pub fn make_sip_uri(user: &str, host: &str) -> (text: String)
    ensures
        text@ == sip_uri(user@, host@),
{
    let mut text = "sip:".to_owned();
    text.append(user);
    text.append("@");
    text.append(host);
    text
}

/// Registers the account of `username` at the registrar `uri` and makes it
/// the default account.
///
/// `replies` holds the statuses the engine has returned so far for this
/// registration: none before the engine was asked, one afterwards.
pub fn accountSetup(username: String, uri: String, password: String, replies: &[i32]) -> (step:
    Step)
    ensures
        step@ == account_plan(username@, uri@, password@, replies@),
{
    proof {
        lemma_sip_uri_nul(username@, uri@);
        lemma_fixed_texts();
    }
    let acc_id: String = make_sip_uri(username.as_str(), uri.as_str());
    let mut reg_uri: String = "sip:".to_owned();
    reg_uri.append(uri.as_str());
    let realm: String = REALM_GLOBAL.to_owned();
    let scheme: String = uri;
    let data: String = password;

    let acc_id_pj_str_t = match make_pj_str_t(acc_id) {
        Err(x) => return Step::Finished(Err(x)),
        Ok(y) => y,
    };
    let reg_uri_pj_str_t = match make_pj_str_t(reg_uri) {
        Err(x) => return Step::Finished(Err(x)),
        Ok(y) => y,
    };
    let realm_pj_str_t = match make_pj_str_t(realm) {
        Err(x) => return Step::Finished(Err(x)),
        Ok(y) => y,
    };
    let scheme_pj_str_t = match make_pj_str_t(scheme) {
        Err(x) => return Step::Finished(Err(x)),
        Ok(y) => y,
    };
    let username_pj_str_t = match make_pj_str_t(username) {
        Err(x) => return Step::Finished(Err(x)),
        Ok(y) => y,
    };
    let data_pj_str_t = match make_pj_str_t(data) {
        Err(x) => return Step::Finished(Err(x)),
        Ok(y) => y,
    };

    let mut cred_info: Vec<Credential> = Vec::new();
    cred_info.push(
        Credential {
            realm: realm_pj_str_t,
            scheme: scheme_pj_str_t,
            username: username_pj_str_t,
            data_type: CredentialData::PlainPassword,
            data: data_pj_str_t,
        },
    );
    let acc_cfg = AccountConfig {
        id: acc_id_pj_str_t,
        reg_uri: reg_uri_pj_str_t,
        cred_count: 1,
        cred_info,
    };
    assert(acc_cfg@.cred_info =~= account_config(username@, uri@, password@).cred_info);
    settle(
        EngineOp::RegisterAccount { config: acc_cfg, make_default: true },
        replies,
        TelephonyError::AccountCreationError("Error Adding Account".to_owned()),
    )
}

} // verus!
