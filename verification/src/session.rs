//! Login and the sessions it issues.

use vstd::prelude::*;
use vstd::hash_map::StringHashMap;
use vstd::string::StringExecFns;
use crate::api::{LoginBody, LoginReply, SESSION_ID_LEN};
use crate::config::{auth_method_oidc, Config};
use crate::error::{
    error_view,
    msg_invalid_session,
    msg_invalid_token,
    msg_no_auth_token,
    msg_oidc,
    result_view,
    ErrorKind,
    TunnelError,
    TunnelErrorView,
};
use crate::random::{is_random_id, random_string};

verus! {

/// The name of the first user in `tokens` whose token is `token`.
pub open spec fn username_for(tokens: Seq<(String, String)>, token: Seq<char>) -> Option<
    Seq<char>,
>
    decreases tokens.len(),
{
    if tokens.len() == 0 {
        None
    } else if tokens[0].1@ == token {
        Some(tokens[0].0@)
    } else {
        username_for(tokens.skip(1), token)
    }
}

/// What presenting `token` gives under the configuration `cfg`: the name of
/// its user, or the reason why it is refused.
pub open spec fn token_result(cfg: Config, token: Seq<char>) -> Result<Seq<char>, TunnelErrorView> {
    if cfg.core.auth_method@ == auth_method_oidc() {
        Err(error_view(ErrorKind::InvalidArgument, msg_oidc()))
    } else {
        match username_for(cfg.tokens@, token) {
            Some(name) => Ok(name),
            None => Err(error_view(ErrorKind::InvalidArgument, msg_invalid_token())),
        }
    }
}

/// What a request with this `authorization` entry gets while `sessions` are
/// issued: nothing to object, or the reason why it is refused.
pub open spec fn auth_result(sessions: Set<Seq<char>>, authorization: Option<Seq<char>>) -> Result<
    (),
    TunnelErrorView,
> {
    match authorization {
        None => Err(error_view(ErrorKind::Unauthenticated, msg_no_auth_token())),
        Some(session) => if sessions.contains(session) {
            Ok(())
        } else {
            Err(error_view(ErrorKind::Unauthenticated, msg_invalid_session()))
        },
    }
}

/// The sessions after a login with `token` for which the id `session_id`
/// was minted: the id stands for the user of the token, if the token is
/// accepted.
pub open spec fn sessions_after_login(
    cfg: Config,
    sessions: Map<Seq<char>, Seq<char>>,
    token: Seq<char>,
    session_id: Seq<char>,
) -> Map<Seq<char>, Seq<char>> {
    match token_result(cfg, token) {
        Ok(name) => sessions.insert(session_id, name),
        Err(_) => sessions,
    }
}

/// Whether `r` is the answer to a login with `token` for which the id
/// `session_id` was minted.
pub open spec fn login_answers(
    r: Result<LoginReply, TunnelError>,
    cfg: Config,
    token: Seq<char>,
    session_id: Seq<char>,
) -> bool {
    match token_result(cfg, token) {
        Ok(name) => r matches Ok(reply) && reply.session_id@ == session_id && reply.username@
            == name,
        Err(e) => r matches Err(err) && err@ == e,
    }
}

/// The first user with a token is found exactly when some user has it, and
/// the name that comes back is the name of a user who has it.
pub proof fn lemma_username_for(tokens: Seq<(String, String)>, token: Seq<char>)
    ensures
        username_for(tokens, token) is Some <==> exists|i: int|
            0 <= i < tokens.len() && (#[trigger] tokens[i]).1@ == token,
        username_for(tokens, token) matches Some(name) ==> exists|i: int|
            0 <= i < tokens.len() && (#[trigger] tokens[i]).1@ == token && tokens[i].0@ == name,
    decreases tokens.len(),
{
    if tokens.len() > 0 {
        let tail = tokens.skip(1);
        lemma_username_for(tail, token);
        if tokens[0].1@ == token {
        } else {
            if username_for(tail, token) is Some {
                let i = choose|i: int|
                    0 <= i < tail.len() && (#[trigger] tail[i]).1@ == token && tail[i].0@
                        == username_for(tail, token)->0;
                assert(tokens[i + 1] == tail[i]);
            }
            if exists|i: int| 0 <= i < tokens.len() && (#[trigger] tokens[i]).1@ == token {
                let i = choose|i: int| 0 <= i < tokens.len() && (#[trigger] tokens[i]).1@ == token;
                assert(tail[i - 1] == tokens[i]);
            }
        }
    }
}

/// A login succeeds exactly with the token of a user.
///
/// Unless OIDC is configured, a token is accepted if and only if it is the
/// token of some user of the configuration, and the name that comes back is
/// the name of a user who has that token.
pub proof fn law_token_validity(cfg: Config, token: Seq<char>)
    requires
        cfg.core.auth_method@ != auth_method_oidc(),
    ensures
        token_result(cfg, token) is Ok <==> exists|i: int|
            0 <= i < cfg.tokens@.len() && (#[trigger] cfg.tokens@[i]).1@ == token,
        token_result(cfg, token) matches Ok(name) ==> exists|i: int|
            0 <= i < cfg.tokens@.len() && (#[trigger] cfg.tokens@[i]).1@ == token
                && cfg.tokens@[i].0@ == name,
{
    lemma_username_for(cfg.tokens@, token);
}

/// The sessions issued after the logins `attempts` in a row, starting with
/// none. Each attempt is a token and the session id minted for it.
pub open spec fn sessions_after_logins(cfg: Config, attempts: Seq<(Seq<char>, Seq<char>)>) -> Map<
    Seq<char>,
    Seq<char>,
>
    decreases attempts.len(),
{
    if attempts.len() == 0 {
        Map::empty()
    } else {
        sessions_after_login(
            cfg,
            sessions_after_logins(cfg, attempts.drop_last()),
            attempts.last().0,
            attempts.last().1,
        )
    }
}

/// Only a session that a successful login issued passes.
///
/// After any run of logins, a request passes if and only if its
/// `authorization` entry is the session id of one of the logins that
/// succeeded; every other request is refused as unauthenticated.
pub proof fn law_only_issued_sessions_pass(
    cfg: Config,
    attempts: Seq<(Seq<char>, Seq<char>)>,
    authorization: Option<Seq<char>>,
)
    ensures
        auth_result(sessions_after_logins(cfg, attempts).dom(), authorization) is Ok <==> (
        authorization matches Some(session) && exists|i: int|
            0 <= i < attempts.len() && (#[trigger] attempts[i]).1 == session && token_result(
                cfg,
                attempts[i].0,
            ) is Ok),
        auth_result(sessions_after_logins(cfg, attempts).dom(), authorization) matches Err(e)
            ==> e.kind == ErrorKind::Unauthenticated,
    decreases attempts.len(),
{
    if attempts.len() > 0 {
        let earlier = attempts.drop_last();
        law_only_issued_sessions_pass(cfg, earlier, authorization);
        match authorization {
            Some(session) => {
                let before = sessions_after_logins(cfg, earlier);
                let now = sessions_after_logins(cfg, attempts);
                if now.dom().contains(session) {
                    if before.dom().contains(session) {
                        let i = choose|i: int|
                            0 <= i < earlier.len() && (#[trigger] earlier[i]).1 == session
                                && token_result(cfg, earlier[i].0) is Ok;
                        assert(attempts[i] == earlier[i]);
                    } else {
                        assert(attempts[attempts.len() - 1].1 == session);
                    }
                }
                if exists|i: int|
                    0 <= i < attempts.len() && (#[trigger] attempts[i]).1 == session
                        && token_result(cfg, attempts[i].0) is Ok {
                    let i = choose|i: int|
                        0 <= i < attempts.len() && (#[trigger] attempts[i]).1 == session
                            && token_result(cfg, attempts[i].0) is Ok;
                    if i < earlier.len() {
                        assert(earlier[i] == attempts[i]);
                    }
                }
            },
            None => {},
        }
    }
}

/// The users of the server and the sessions that their logins were given.
pub struct RSLUser {
    cfg: Config,
    sessions: StringHashMap<String>,
}

impl RSLUser {
    /// The configuration that holds the tokens.
    pub closed spec fn config(&self) -> Config {
        self.cfg
    }

    /// The sessions issued so far: the user name behind each session id.
    pub closed spec fn sessions(&self) -> Map<Seq<char>, Seq<char>> {
        self.sessions@.map_values(|name: String| name@)
    }

    /// No session is issued at the start.
    pub fn new(cfg: Config) -> (u: RSLUser)
        ensures
            u.config() == cfg,
            u.sessions() == Map::<Seq<char>, Seq<char>>::empty(),
    {
        let u = RSLUser { cfg, sessions: StringHashMap::new() };
        assert(u.sessions() =~= Map::<Seq<char>, Seq<char>>::empty());
        u
    }

    /// The name of the user whose token is `token`. With OIDC configured no
    /// token is accepted.
    pub fn token2username(&self, token: &String) -> (r: Result<String, TunnelError>)
        ensures
            result_view(r) == token_result(self.config(), token@),
    {
        if self.cfg.core.auth_method == String::from_str("oidc") {
            return Err(TunnelError::new(ErrorKind::InvalidArgument, "oidc not implement"));
        }
        let mut i: usize = 0;
        assert(self.cfg.tokens@.skip(0) =~= self.cfg.tokens@);
        while i < self.cfg.tokens.len()
            invariant
                i <= self.cfg.tokens@.len(),
                self.cfg.core.auth_method@ != auth_method_oidc(),
                username_for(self.cfg.tokens@, token@) == username_for(
                    self.cfg.tokens@.skip(i as int),
                    token@,
                ),
            decreases self.cfg.tokens@.len() - i,
        {
            let ghost rest = self.cfg.tokens@.skip(i as int);
            assert(rest[0] == self.cfg.tokens@[i as int]);
            assert(rest.skip(1) =~= self.cfg.tokens@.skip(i + 1));
            if self.cfg.tokens[i].1 == *token {
                return Ok(self.cfg.tokens[i].0.clone());
            }
            i = i + 1;
        }
        Err(TunnelError::new(ErrorKind::InvalidArgument, "invalid token"))
    }

    /// Logs a user in with `token`, under the session id `session_id`. If
    /// the token is accepted, the id from now on stands for its user.
    pub fn login_with_session(&mut self, token: &String, session_id: String) -> (r: Result<
        LoginReply,
        TunnelError,
    >)
        ensures
            final(self).config() == old(self).config(),
            login_answers(r, old(self).config(), token@, session_id@),
            final(self).sessions() == sessions_after_login(
                old(self).config(),
                old(self).sessions(),
                token@,
                session_id@,
            ),
    {
        match self.token2username(token) {
            Ok(username) => {
                self.sessions.insert(session_id.clone(), username.clone());
                assert(self.sessions() =~= old(self).sessions().insert(session_id@, username@));
                Ok(LoginReply { session_id, username })
            },
            Err(e) => Err(e),
        }
    }

    /// Logs a user in with the token of `body`. If the token is accepted,
    /// a session id of 128 random letters and digits is minted, which from
    /// now on stands for its user.
    pub fn login(&mut self, body: &LoginBody) -> (r: Result<LoginReply, TunnelError>)
        ensures
            final(self).config() == old(self).config(),
            exists|session_id: Seq<char>|
                {
                    &&& is_random_id(session_id, SESSION_ID_LEN as nat)
                    &&& #[trigger] login_answers(r, old(self).config(), body.token@, session_id)
                    &&& final(self).sessions() == sessions_after_login(
                        old(self).config(),
                        old(self).sessions(),
                        body.token@,
                        session_id,
                    )
                },
    {
        let session_id = random_string(SESSION_ID_LEN);
        let ghost minted = session_id@;
        let r = self.login_with_session(&body.token, session_id);
        assert(login_answers(r, old(self).config(), body.token@, minted));
        r
    }

    /// Whether `session_id` is the id of a session that a login issued.
    pub fn validate(&self, session_id: &str) -> (r: bool)
        ensures
            r == self.sessions().dom().contains(session_id@),
    {
        self.sessions.contains_key(session_id)
    }

    /// Decides whether a request may pass, by its `authorization` entry:
    /// it must carry the id of an issued session.
    pub fn call(&self, authorization: Option<&str>) -> (r: Result<(), TunnelError>)
        ensures
            match auth_result(
                self.sessions().dom(),
                match authorization {
                    Some(session) => Some(session@),
                    None => None,
                },
            ) {
                Ok(_) => r is Ok,
                Err(e) => r matches Err(err) && err@ == e,
            },
    {
        match authorization {
            Some(session) => {
                if self.validate(session) {
                    Ok(())
                } else {
                    Err(TunnelError::new(ErrorKind::Unauthenticated, "invalid session"))
                }
            },
            None => Err(TunnelError::new(ErrorKind::Unauthenticated, "No valid auth token")),
        }
    }
}

} // verus!
