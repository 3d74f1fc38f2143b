//! A registration, step by step: what to ask of the store next, and what to
//! answer the client in the end.

use crate::client_agent::{is_register_err, register_ok, MAX_USERNAME_LENGTH};
use crate::password::{bcrypt_verify, hash_password};
use crate::proto::Packet;
use crate::proto_util;
use vstd::prelude::*;
use vstd::utf8::encode_utf8;

verus! {

/// The bits of a colour that hold its alpha.
pub const ALPHA_MASK: i64 = 0xFF;

/// What a registration waits for.
#[derive(Clone, Copy, Debug, PartialEq, Eq, Structural)]
pub enum RegisterStage {
    /// The transaction is being opened.
    Opening,
    /// The store is looking for the user name.
    CheckingUsername,
    /// The credential row is being inserted.
    InsertingAuth,
    /// The player row is being inserted.
    InsertingPlayer,
    /// The transaction is being committed.
    Committing,
    /// The client was answered.
    Finished,
}

/// A registration under way.
#[derive(Debug, PartialEq, Eq)]
pub struct RegisterFlow {
    pub username: String,
    pub password: String,
    pub color: i64,
    pub stage: RegisterStage,
}

/// How the store answered the last request. `ok` says that it succeeded,
/// and for a search that a row was found; `row_id` is the id of an inserted
/// row.
#[derive(Clone, Copy, Debug, PartialEq, Eq, Structural)]
pub struct StoreReply {
    pub ok: bool,
    pub row_id: i64,
}

/// What to do next for a registration. All requests to the store go into
/// the one transaction.
#[derive(Debug, PartialEq, Eq)]
pub enum RegisterAction {
    /// Open a transaction.
    BeginTransaction,
    /// Look for a credential row with this user name.
    FindUsername { username: String },
    /// Insert a credential row.
    InsertAuth { username: String, password_hash: String },
    /// Insert a player row.
    InsertPlayer { auth_id: i64, nickname: String, color: i64 },
    /// Commit the transaction.
    Commit,
    /// Send the packet to the client, and drop a transaction that was not
    /// committed, which rolls it back.
    Reply(Packet),
    /// Nothing: the registration has ended before.
    Nothing,
}

/// A colour with its alpha forced opaque.
pub open spec fn spec_with_opaque_alpha(color: i64) -> i64 {
    color | ALPHA_MASK
}

/// What is wrong with a user name, if anything: it is empty, or longer than
/// the maximum in bytes.
pub open spec fn username_flaw(username: Seq<char>) -> Option<Seq<char>> {
    if username.len() == 0 {
        Some("username is empty"@)
    } else if encode_utf8(username).len() > MAX_USERNAME_LENGTH {
        Some("username too long"@)
    } else {
        None
    }
}

/// Whether `action` ends the registration with a refusal for `reason`.
pub open spec fn refuses(action: RegisterAction, reason: Seq<char>) -> bool {
    action matches RegisterAction::Reply(packet) && is_register_err(packet, reason)
}

/// The step that a registration takes on an answer of the store, where
/// hashing the password gives `password_hash`. Any failure ends it with a
/// refusal that names the step.
pub open spec fn advanced(
    pre: RegisterFlow,
    reply: StoreReply,
    password_hash: Option<String>,
    post: RegisterFlow,
    action: RegisterAction,
) -> bool {
    &&& post.username == pre.username
    &&& post.password == pre.password
    &&& post.color == pre.color
    &&& match pre.stage {
        RegisterStage::Opening => if !reply.ok {
            post.stage == RegisterStage::Finished && refuses(action, "transaction begin error"@)
        } else if username_flaw(pre.username@) is Some {
            post.stage == RegisterStage::Finished && refuses(action, username_flaw(pre.username@)->0)
        } else {
            post.stage == RegisterStage::CheckingUsername && action == (RegisterAction::FindUsername {
                username: pre.username,
            })
        },
        RegisterStage::CheckingUsername => if reply.ok {
            post.stage == RegisterStage::Finished && refuses(action, "username already exists"@)
        } else {
            match password_hash {
                Some(hash) => post.stage == RegisterStage::InsertingAuth && action == (
                RegisterAction::InsertAuth { username: pre.username, password_hash: hash }),
                None => post.stage == RegisterStage::Finished && refuses(
                    action,
                    "password hash error"@,
                ),
            }
        },
        RegisterStage::InsertingAuth => if !reply.ok {
            post.stage == RegisterStage::Finished && refuses(action, "auth insert error"@)
        } else {
            post.stage == RegisterStage::InsertingPlayer && action == (RegisterAction::InsertPlayer {
                auth_id: reply.row_id,
                nickname: pre.username,
                color: spec_with_opaque_alpha(pre.color),
            })
        },
        RegisterStage::InsertingPlayer => if !reply.ok {
            post.stage == RegisterStage::Finished && refuses(action, "player insert error"@)
        } else {
            post.stage == RegisterStage::Committing && action == RegisterAction::Commit
        },
        RegisterStage::Committing => if !reply.ok {
            post.stage == RegisterStage::Finished && refuses(action, "transaction commit error"@)
        } else {
            post.stage == RegisterStage::Finished && action == RegisterAction::Reply(register_ok())
        },
        RegisterStage::Finished => post.stage == RegisterStage::Finished && action
            == RegisterAction::Nothing,
    }
}

/// Whether `password_hash` can be the outcome of hashing the password on
/// the step that `reply` starts: nothing on a step that does not hash, and
/// on the one that does either nothing, where hashing failed, or a hash
/// against which the password verifies.
pub open spec fn is_hash_for(flow: RegisterFlow, reply: StoreReply, password_hash: Option<String>) -> bool {
    match password_hash {
        Some(hash) => flow.hashes(reply) && bcrypt_verify(flow.password@, hash@) == Some(true),
        None => true,
    }
}

/// Forces the alpha of a colour opaque and leaves its other bits.
pub fn with_opaque_alpha(color: i64) -> (opaque: i64)
    ensures
        opaque == spec_with_opaque_alpha(color),
{
    color | ALPHA_MASK
}

/// Says what is wrong with a user name, if anything.
pub fn check_username(username: &str) -> (flaw: Option<String>)
    ensures
        match flaw {
            Some(reason) => username_flaw(username@) == Some(reason@),
            None => username_flaw(username@) is None,
        },
{
    if username.is_empty() {
        return Some("username is empty".to_owned());
    }
    if username.as_bytes().len() > MAX_USERNAME_LENGTH {
        return Some("username too long".to_owned());
    }
    None
}

impl RegisterFlow {
    /// A registration asks the store about a user name only once it has
    /// found the name in order.
    pub open spec fn wf(&self) -> bool {
        self.stage != RegisterStage::Opening && self.stage != RegisterStage::Finished ==> username_flaw(
            self.username@,
        ) is None
    }

    /// Starts a registration: the first thing to do is to open a
    /// transaction.
    pub fn begin(
        username: String,
        password: String,
        color: i64,
    ) -> (started: (RegisterFlow, RegisterAction))
        ensures
            started.0 == (RegisterFlow { username, password, color, stage: RegisterStage::Opening }),
            started.1 == RegisterAction::BeginTransaction,
            started.0.wf(),
    {
        (
            RegisterFlow { username, password, color, stage: RegisterStage::Opening },
            RegisterAction::BeginTransaction,
        )
    }

    /// Ends the registration with a refusal for `reason`.
    fn refuse(&mut self, reason: &str) -> (action: RegisterAction)
        ensures
            refuses(action, reason@),
            *final(self) == (RegisterFlow { stage: RegisterStage::Finished, ..*old(self) }),
    {
        self.stage = RegisterStage::Finished;
        RegisterAction::Reply(proto_util::register_err_packet(reason.to_owned()))
    }

    /// Takes the next step on an answer of the store, with the outcome of
    /// hashing the password given.
    pub fn advance_with(
        &mut self,
        reply: StoreReply,
        password_hash: Option<String>,
    ) -> (action: RegisterAction)
        ensures
            advanced(*old(self), reply, password_hash, *final(self), action),
            old(self).wf() ==> final(self).wf(),
    {
        match self.stage {
            RegisterStage::Opening => {
                if !reply.ok {
                    return self.refuse("transaction begin error");
                }
                if let Some(reason) = check_username(self.username.as_str()) {
                    return self.refuse(reason.as_str());
                }
                self.stage = RegisterStage::CheckingUsername;
                RegisterAction::FindUsername { username: self.username.clone() }
            },
            RegisterStage::CheckingUsername => {
                if reply.ok {
                    return self.refuse("username already exists");
                }
                match password_hash {
                    Some(hash) => {
                        self.stage = RegisterStage::InsertingAuth;
                        RegisterAction::InsertAuth {
                            username: self.username.clone(),
                            password_hash: hash,
                        }
                    },
                    None => self.refuse("password hash error"),
                }
            },
            RegisterStage::InsertingAuth => {
                if !reply.ok {
                    return self.refuse("auth insert error");
                }
                self.stage = RegisterStage::InsertingPlayer;
                RegisterAction::InsertPlayer {
                    auth_id: reply.row_id,
                    nickname: self.username.clone(),
                    color: with_opaque_alpha(self.color),
                }
            },
            RegisterStage::InsertingPlayer => {
                if !reply.ok {
                    return self.refuse("player insert error");
                }
                self.stage = RegisterStage::Committing;
                RegisterAction::Commit
            },
            RegisterStage::Committing => {
                if !reply.ok {
                    return self.refuse("transaction commit error");
                }
                self.stage = RegisterStage::Finished;
                RegisterAction::Reply(proto_util::register_ok_packet())
            },
            RegisterStage::Finished => RegisterAction::Nothing,
        }
    }

    /// Whether the step on `reply` hashes the password: the store has found
    /// no row for the user name.
    pub open spec fn hashes(self, reply: StoreReply) -> bool {
        self.stage == RegisterStage::CheckingUsername && !reply.ok
    }

    /// Takes the next step on an answer of the store. The password is
    /// hashed on the step that needs the hash.
    pub fn advance(&mut self, reply: StoreReply) -> (action: RegisterAction)
        ensures
            exists|password_hash: Option<String>|
                is_hash_for(*old(self), reply, password_hash) && #[trigger] advanced(
                    *old(self),
                    reply,
                    password_hash,
                    *final(self),
                    action,
                ),
            old(self).wf() ==> final(self).wf(),
    {
        let password_hash = match self.stage {
            RegisterStage::CheckingUsername => if reply.ok {
                None
            } else {
                hash_password(self.password.as_str())
            },
            _ => None,
        };
        self.advance_with(reply, password_hash)
    }
}

/// A colour with its alpha forced has an opaque alpha, keeps every other
/// bit, and is not changed by forcing it again.
pub proof fn lemma_opaque_alpha(color: i64)
    ensures
        spec_with_opaque_alpha(color) & ALPHA_MASK == ALPHA_MASK,
        spec_with_opaque_alpha(color) & !ALPHA_MASK == color & !ALPHA_MASK,
        spec_with_opaque_alpha(spec_with_opaque_alpha(color)) == spec_with_opaque_alpha(color),
{
    assert((color | 0xFFi64) & 0xFFi64 == 0xFFi64) by (bit_vector);
    assert((color | 0xFFi64) & !0xFFi64 == color & !0xFFi64) by (bit_vector);
    assert(((color | 0xFFi64) | 0xFFi64) == (color | 0xFFi64)) by (bit_vector);
}

/// A registration answers the client exactly when its stage becomes, or
/// is, finished; until then each step asks one thing of the store.
pub proof fn lemma_reply_ends_flow(
    pre: RegisterFlow,
    reply: StoreReply,
    password_hash: Option<String>,
    post: RegisterFlow,
    action: RegisterAction,
)
    requires
        advanced(pre, reply, password_hash, post, action),
        pre.stage != RegisterStage::Finished,
    ensures
        action is Reply <==> post.stage == RegisterStage::Finished,
        action !is Nothing,
        action !is BeginTransaction,
{
}

/// A registration is accepted only when every step has succeeded: the
/// accepting packet is sent on a commit that went through, and on nothing
/// else.
pub proof fn lemma_accepted_only_after_commit(
    pre: RegisterFlow,
    reply: StoreReply,
    password_hash: Option<String>,
    post: RegisterFlow,
    action: RegisterAction,
)
    requires
        advanced(pre, reply, password_hash, post, action),
    ensures
        action == RegisterAction::Reply(register_ok()) <==> (pre.stage == RegisterStage::Committing
            && reply.ok),
{
}

/// What goes into the store is in order: rows are inserted only for a user
/// name that is not empty and not too long, the player is named after the
/// user, and its colour has an opaque alpha.
pub proof fn lemma_stored_rows_are_in_order(
    pre: RegisterFlow,
    reply: StoreReply,
    password_hash: Option<String>,
    post: RegisterFlow,
    action: RegisterAction,
)
    requires
        pre.wf(),
        advanced(pre, reply, password_hash, post, action),
    ensures
        post.wf(),
        action is InsertAuth || action is InsertPlayer ==> username_flaw(pre.username@) is None,
        action matches RegisterAction::InsertAuth { username, .. } ==> username == pre.username,
        action matches RegisterAction::InsertPlayer { nickname, color, .. } ==> nickname
            == pre.username && color & ALPHA_MASK == ALPHA_MASK,
{
    lemma_opaque_alpha(pre.color);
}

/// What is stored as the hash of a password is one against which the
/// password verifies: a credential row is inserted only with the outcome of
/// hashing, never with anything else.
pub proof fn lemma_stored_hash_verifies(
    pre: RegisterFlow,
    reply: StoreReply,
    password_hash: Option<String>,
    post: RegisterFlow,
    action: RegisterAction,
)
    requires
        is_hash_for(pre, reply, password_hash),
        advanced(pre, reply, password_hash, post, action),
    ensures
        action matches RegisterAction::InsertAuth { password_hash: stored, .. } ==> bcrypt_verify(
            pre.password@,
            stored@,
        ) == Some(true),
{
}

} // verus!
