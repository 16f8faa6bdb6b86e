//! OAuth authorization: the permissions an application can ask for, and the
//! addresses that start the two grant flows.

use crate::client::TwitchClient;
use vstd::prelude::*;

verus! {

/// A permission that a token can grant. The set is closed; each permission
/// is written as its own name.
#[derive(Debug, Clone, Copy, PartialEq, Eq, Structural)]
#[allow(non_camel_case_types)]
pub enum Scope {
    channel_check_subscription,
    channel_commercial,
    channel_editor,
    channel_feed_edit,
    channel_feed_read,
    channel_read,
    channel_stream,
    channel_subscriptions,
    chat_login,
    user_blocks_edit,
    user_blocks_read,
    user_follows_edit,
    user_read,
    user_subscriptions,
    viewing_activity_ready,
}

/// The name under which a permission is asked for.
pub open spec fn scope_name(scope: Scope) -> Seq<char> {
    match scope {
        Scope::channel_check_subscription => "channel_check_subscription"@,
        Scope::channel_commercial => "channel_commercial"@,
        Scope::channel_editor => "channel_editor"@,
        Scope::channel_feed_edit => "channel_feed_edit"@,
        Scope::channel_feed_read => "channel_feed_read"@,
        Scope::channel_read => "channel_read"@,
        Scope::channel_stream => "channel_stream"@,
        Scope::channel_subscriptions => "channel_subscriptions"@,
        Scope::chat_login => "chat_login"@,
        Scope::user_blocks_edit => "user_blocks_edit"@,
        Scope::user_blocks_read => "user_blocks_read"@,
        Scope::user_follows_edit => "user_follows_edit"@,
        Scope::user_read => "user_read"@,
        Scope::user_subscriptions => "user_subscriptions"@,
        Scope::viewing_activity_ready => "viewing_activity_ready"@,
    }
}

/// The scope parameter for a list of permissions: their names in the order
/// given, repeated where the list repeats them, with one `+` between
/// neighbours and none at either end.
pub open spec fn encoded_scopes(scopes: Seq<Scope>) -> Seq<char>
    decreases scopes.len(),
{
    if scopes.len() == 0 {
        Seq::empty()
    } else if scopes.len() == 1 {
        scope_name(scopes[0])
    } else {
        encoded_scopes(scopes.drop_last()) + seq!['+'] + scope_name(scopes.last())
    }
}

/// Address of the authorization endpoint.
pub open spec fn authorize_endpoint() -> Seq<char> {
    "https://api.twitch.tv/kraken/oauth2/authorize"@
}

/// What follows the response type in an authorization address: the
/// application, where to return to, the permissions and the caller's state.
pub open spec fn grant_parameters(
    client_id: Seq<char>,
    redirect_uri: Seq<char>,
    scopes: Seq<Scope>,
    state: Seq<char>,
) -> Seq<char> {
    "&client_id="@ + client_id + "&redirect_uri="@ + redirect_uri + "&scope="@ + encoded_scopes(
        scopes,
    ) + "&state="@ + state
}

/// The address that starts a grant flow. The five parameters come in a fixed
/// order and their values are written as they are given.
pub open spec fn auth_url(
    response_type: Seq<char>,
    client_id: Seq<char>,
    redirect_uri: Seq<char>,
    scopes: Seq<Scope>,
    state: Seq<char>,
) -> Seq<char> {
    authorize_endpoint() + "?response_type="@ + response_type + grant_parameters(
        client_id,
        redirect_uri,
        scopes,
        state,
    )
}

impl Scope {
    /// The permission's name.
    pub fn as_str(&self) -> (name: &'static str)
        ensures
            name@ == scope_name(*self),
    {
        match self {
            Scope::channel_check_subscription => "channel_check_subscription",
            Scope::channel_commercial => "channel_commercial",
            Scope::channel_editor => "channel_editor",
            Scope::channel_feed_edit => "channel_feed_edit",
            Scope::channel_feed_read => "channel_feed_read",
            Scope::channel_read => "channel_read",
            Scope::channel_stream => "channel_stream",
            Scope::channel_subscriptions => "channel_subscriptions",
            Scope::chat_login => "chat_login",
            Scope::user_blocks_edit => "user_blocks_edit",
            Scope::user_blocks_read => "user_blocks_read",
            Scope::user_follows_edit => "user_follows_edit",
            Scope::user_read => "user_read",
            Scope::user_subscriptions => "user_subscriptions",
            Scope::viewing_activity_ready => "viewing_activity_ready",
        }
    }

    /// The permission's name, as an owned string.
    pub fn to_string(&self) -> (name: String)
        ensures
            name@ == scope_name(*self),
    {
        self.as_str().to_owned()
    }
}

/// Writes a list of permissions as the value of the scope parameter.
pub fn format_scope(scopes: &[Scope]) -> (encoded: String)
    ensures
        encoded@ == encoded_scopes(scopes@),
{
    let mut res = String::new();
    let mut i: usize = 0;
    while i < scopes.len()
        invariant
            i <= scopes.len(),
            res@ == encoded_scopes(scopes@.take(i as int)),
        decreases scopes.len() - i,
    {
        proof {
            reveal_strlit("+");
            let before = scopes@.take(i as int);
            let after = scopes@.take(i + 1);
            assert(after.drop_last() == before);
            assert(after.last() == scopes@[i as int]);
            assert("+"@ == seq!['+']);
        }
        if i > 0 {
            res.append("+");
        }
        res.append(scopes[i].as_str());
        i += 1;
    }
    assert(scopes@.take(i as int) == scopes@);
    res
}

/// Assembles the address that starts a grant flow of the given response type
/// for the client's application.
pub fn gen_auth_url(
    c: &TwitchClient,
    rtype: &str,
    redirect_url: &str,
    scope: &[Scope],
    state: &str,
) -> (url: String)
    ensures
        url@ == auth_url(rtype@, c.application_id(), redirect_url@, scope@, state@),
{
    let scopes = format_scope(scope);
    let mut url = String::from_str("https://api.twitch.tv/kraken/oauth2/authorize");
    url.append("?response_type=");
    url.append(rtype);
    url.append("&client_id=");
    url.append(c.credentials().client_id.as_str());
    url.append("&redirect_uri=");
    url.append(redirect_url);
    url.append("&scope=");
    url.append(scopes.as_str());
    url.append("&state=");
    url.append(state);
    assert(url@ =~= auth_url(rtype@, c.application_id(), redirect_url@, scope@, state@));
    url
}

/// The address that starts the authorization code flow.
pub fn auth_code_flow(
    c: &TwitchClient,
    redirect_url: &str,
    scope: &[Scope],
    state: &str,
) -> (url: String)
    ensures
        url@ == auth_url("code"@, c.application_id(), redirect_url@, scope@, state@),
{
    gen_auth_url(c, "code", redirect_url, scope, state)
}

/// The address that starts the implicit grant flow.
pub fn imp_grant_flow(
    c: &TwitchClient,
    redirect_url: &str,
    scope: &[Scope],
    state: &str,
) -> (url: String)
    ensures
        url@ == auth_url("token"@, c.application_id(), redirect_url@, scope@, state@),
{
    gen_auth_url(c, "token", redirect_url, scope, state)
}

/// The number of `+` characters in a text.
pub open spec fn separators(text: Seq<char>) -> nat
    decreases text.len(),
{
    if text.len() == 0 {
        0
    } else {
        separators(text.drop_last()) + if text.last() == '+' {
            1nat
        } else {
            0nat
        }
    }
}

/// Separators add up over concatenation.
proof fn lemma_separators_concat(left: Seq<char>, right: Seq<char>)
    ensures
        separators(left + right) == separators(left) + separators(right),
    decreases right.len(),
{
    if right.len() == 0 {
        assert(left + right =~= left);
    } else {
        assert((left + right).drop_last() =~= left + right.drop_last());
        lemma_separators_concat(left, right.drop_last());
    }
}

/// A text without a `+` has no separator.
proof fn lemma_separators_none(text: Seq<char>)
    requires
        forall|i: int| 0 <= i < text.len() ==> text[i] != '+',
    ensures
        separators(text) == 0,
    decreases text.len(),
{
    if text.len() > 0 {
        lemma_separators_none(text.drop_last());
    }
}

/// No permission's name is empty or holds a `+`.
proof fn lemma_scope_name_plain(scope: Scope)
    ensures
        scope_name(scope).len() > 0,
        forall|i: int| 0 <= i < scope_name(scope).len() ==> scope_name(scope)[i] != '+',
{
    reveal_strlit("channel_check_subscription");
    reveal_strlit("channel_commercial");
    reveal_strlit("channel_editor");
    reveal_strlit("channel_feed_edit");
    reveal_strlit("channel_feed_read");
    reveal_strlit("channel_read");
    reveal_strlit("channel_stream");
    reveal_strlit("channel_subscriptions");
    reveal_strlit("chat_login");
    reveal_strlit("user_blocks_edit");
    reveal_strlit("user_blocks_read");
    reveal_strlit("user_follows_edit");
    reveal_strlit("user_read");
    reveal_strlit("user_subscriptions");
    reveal_strlit("viewing_activity_ready");
}

/// The encoding of no permission is the empty text. The encoding of `n`
/// permissions, `n` at least one, holds exactly `n - 1` separators, and
/// neither begins nor ends with one.
pub proof fn lemma_encoded_scopes_separators(scopes: Seq<Scope>)
    ensures
        scopes.len() == 0 ==> encoded_scopes(scopes) == Seq::<char>::empty(),
        scopes.len() > 0 ==> separators(encoded_scopes(scopes)) == scopes.len() - 1,
        scopes.len() > 0 ==> encoded_scopes(scopes).len() > 0,
        scopes.len() > 0 ==> encoded_scopes(scopes).first() != '+',
        scopes.len() > 0 ==> encoded_scopes(scopes).last() != '+',
    decreases scopes.len(),
{
    if scopes.len() == 1 {
        lemma_scope_name_plain(scopes[0]);
        lemma_separators_none(scope_name(scopes[0]));
    } else if scopes.len() > 1 {
        let front = encoded_scopes(scopes.drop_last());
        let name = scope_name(scopes.last());
        lemma_encoded_scopes_separators(scopes.drop_last());
        lemma_scope_name_plain(scopes.last());
        lemma_separators_none(name);
        lemma_separators_concat(front, seq!['+']);
        lemma_separators_concat(front + seq!['+'], name);
        assert(separators(seq!['+']) == 1) by {
            assert(seq!['+'].drop_last() =~= Seq::<char>::empty());
            reveal_with_fuel(separators, 2);
        }
    }
}

/// An authorization address begins with the endpoint, whatever the inputs,
/// and names its parameters in the order response type, application,
/// redirection, scope, state.
pub proof fn lemma_auth_url_shape(
    response_type: Seq<char>,
    client_id: Seq<char>,
    redirect_uri: Seq<char>,
    scopes: Seq<Scope>,
    state: Seq<char>,
)
    ensures
        authorize_endpoint().is_prefix_of(
            auth_url(response_type, client_id, redirect_uri, scopes, state),
        ),
        auth_url(response_type, client_id, redirect_uri, scopes, state) == authorize_endpoint()
            + "?response_type="@ + response_type + "&client_id="@ + client_id + "&redirect_uri="@
            + redirect_uri + "&scope="@ + encoded_scopes(scopes) + "&state="@ + state,
{
    let url = auth_url(response_type, client_id, redirect_uri, scopes, state);
    assert(url =~= authorize_endpoint() + "?response_type="@ + response_type + "&client_id="@
        + client_id + "&redirect_uri="@ + redirect_uri + "&scope="@ + encoded_scopes(scopes)
        + "&state="@ + state);
    assert(url.subrange(0, authorize_endpoint().len() as int) =~= authorize_endpoint());
}

/// The addresses of the two flows for the same inputs: one names the response
/// type `code`, the other `token`, and before and after it they are the same.
pub proof fn lemma_flows_differ_in_response_type(
    client_id: Seq<char>,
    redirect_uri: Seq<char>,
    scopes: Seq<Scope>,
    state: Seq<char>,
)
    ensures
        auth_url("code"@, client_id, redirect_uri, scopes, state) == authorize_endpoint()
            + "?"@ + "response_type=code"@ + grant_parameters(client_id, redirect_uri, scopes, state),
        auth_url("token"@, client_id, redirect_uri, scopes, state) == authorize_endpoint()
            + "?"@ + "response_type=token"@ + grant_parameters(
            client_id,
            redirect_uri,
            scopes,
            state,
        ),
{
    reveal_strlit("?");
    reveal_strlit("?response_type=");
    reveal_strlit("code");
    reveal_strlit("token");
    reveal_strlit("response_type=code");
    reveal_strlit("response_type=token");
    let rest = grant_parameters(client_id, redirect_uri, scopes, state);
    assert("?response_type="@ + "code"@ =~= "?"@ + "response_type=code"@);
    assert("?response_type="@ + "token"@ =~= "?"@ + "response_type=token"@);
    assert(auth_url("code"@, client_id, redirect_uri, scopes, state) =~= authorize_endpoint()
        + ("?response_type="@ + "code"@) + rest);
    assert(auth_url("token"@, client_id, redirect_uri, scopes, state) =~= authorize_endpoint()
        + ("?response_type="@ + "token"@) + rest);
    assert(authorize_endpoint() + ("?"@ + "response_type=code"@) + rest =~= authorize_endpoint()
        + "?"@ + "response_type=code"@ + rest);
    assert(authorize_endpoint() + ("?"@ + "response_type=token"@) + rest =~= authorize_endpoint()
        + "?"@ + "response_type=token"@ + rest);
}

} // verus!
