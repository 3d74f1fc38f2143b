//! The agent of one connection: what it does with each packet from its
//! client and with each command from the hub.

use crate::command::{Command, LeaderboardEntry};
use crate::db;
use crate::password::{bcrypt_verify, verify_password};
use crate::proto::{Data, Packet};
use crate::proto_util;
use crate::spore::Spore;
use vstd::prelude::*;

verus! {

/// How many players a leaderboard lists at most.
pub const LEADERBOARD_LIMIT: i64 = 100;

/// How many spores one packet of a snapshot carries at most.
pub const SPORE_CHUNKS: usize = 20;

/// The pause between two packets of a snapshot, in milliseconds.
pub const SEND_INTERVAL_DURATION: u64 = 20;

/// The longest user name, in bytes.
pub const MAX_USERNAME_LENGTH: usize = 16;

/// Where a session stands.
#[derive(Clone, Copy, Debug, PartialEq, Eq, Structural)]
pub enum SessionState {
    Fresh,
    Authenticated,
    Joined,
}

/// The session of one connection. `db_player` is the account that the
/// client has logged in to; `joined` says that a join was sent to the hub.
#[derive(Debug, PartialEq, Eq)]
pub struct ClientAgent {
    pub socket_addr: String,
    pub connection_id: String,
    pub db_player: Option<db::Player>,
    pub joined: bool,
}

/// What an agent does next for a packet of its client.
#[derive(Debug, PartialEq, Eq)]
pub enum PacketAction {
    /// Nothing.
    Ignore,
    /// Send the packet to the client.
    Reply(Packet),
    /// Fetch the credentials of `username` from the store and go on with
    /// [`check_login`].
    FetchAuth { username: String, password: String },
    /// Run a registration: [`RegisterFlow::begin`].
    Register { username: String, password: String, color: i64 },
    /// Put the command on the queue of the hub.
    Forward(Command),
    /// Put `DisconnectClient` on the agent's own queue.
    DisconnectSelf,
    /// Fetch the `limit` best players from the store and answer with
    /// [`leaderboard_packet`].
    FetchLeaderboard { limit: i64 },
}

/// What an agent does next for a command of the hub.
#[derive(Debug, PartialEq, Eq)]
pub enum CommandAction {
    /// Nothing.
    Ignore,
    /// Encode the packet and write it as one binary frame.
    Send(Packet),
    /// Write the bytes as one binary frame.
    Write(Vec<u8>),
    /// Encode each packet and put its bytes on the agent's own queue, one
    /// after the other with the send interval in between.
    Stream(Vec<Packet>),
    /// Store `best_score` as the best score of the player row `id`.
    Persist { best_score: i64, id: i64 },
    /// Close the connection.
    Close,
}

/// How a login goes on once the credentials were looked up.
#[derive(Debug, PartialEq, Eq)]
pub enum LoginStep {
    /// Send the packet: the login has failed.
    Reject(Packet),
    /// Fetch the player row of the account and go on with
    /// [`ClientAgent::finish_login`].
    FetchPlayer { auth_id: i64 },
}

/// The one reason given for every failed login.
pub open spec fn login_failure() -> Seq<char> {
    "incorrect username or password"@
}

/// Whether `packet` refuses a login for `reason`.
pub open spec fn is_login_err(packet: Packet, reason: Seq<char>) -> bool {
    packet.data matches Some(Data::LoginErr(e)) && e.reason@ == reason
}

/// Whether `packet` refuses a registration for `reason`.
pub open spec fn is_register_err(packet: Packet, reason: Seq<char>) -> bool {
    packet.data matches Some(Data::RegisterErr(e)) && e.reason@ == reason
}

/// The packet that accepts a login.
pub open spec fn login_ok() -> Packet {
    Packet { data: Some(Data::LoginOk(crate::proto::LoginOk {  })) }
}

/// The packet that accepts a registration.
pub open spec fn register_ok() -> Packet {
    Packet { data: Some(Data::RegisterOk(crate::proto::RegisterOk {  })) }
}

/// How a login goes on for the account `auth_id` once the password was
/// checked: on to the player row where it matched, and a refusal where it
/// did not or the check failed.
pub open spec fn login_decided(auth_id: i64, verified: Option<bool>, step: LoginStep) -> bool {
    if verified == Some(true) {
        step == (LoginStep::FetchPlayer { auth_id })
    } else {
        step matches LoginStep::Reject(packet) && is_login_err(packet, login_failure())
    }
}

/// How a login goes on once the store has answered for the user name: a
/// refusal where it knows none, else as the check of the password decides.
pub open spec fn login_checked(
    password: Seq<char>,
    auth: Option<db::Auth>,
    step: LoginStep,
) -> bool {
    match auth {
        Some(auth) => login_decided(auth.id, bcrypt_verify(password, auth.password@), step),
        None => step matches LoginStep::Reject(packet) && is_login_err(packet, login_failure()),
    }
}

/// The packet that refuses a login.
pub fn login_refusal() -> (packet: Packet)
    ensures
        is_login_err(packet, login_failure()),
{
    proto_util::login_err_packet("incorrect username or password".to_owned())
}

/// Decides a login from the outcome of the password check.
pub fn decide_login(auth_id: i64, verified: Option<bool>) -> (step: LoginStep)
    ensures
        login_decided(auth_id, verified, step),
{
    match verified {
        Some(true) => LoginStep::FetchPlayer { auth_id },
        _ => LoginStep::Reject(login_refusal()),
    }
}

/// Goes on with a login once the store has answered for the user name:
/// checks the password against the stored hash.
pub fn check_login(password: &str, auth: Option<&db::Auth>) -> (step: LoginStep)
    ensures
        login_checked(
            password@,
            match auth {
                Some(auth) => Some(*auth),
                None => None,
            },
            step,
        ),
{
    match auth {
        Some(auth) => {
            let verified = verify_password(password, auth.password.as_str());
            decide_login(auth.id, verified)
        },
        None => LoginStep::Reject(login_refusal()),
    }
}

/// The leaderboard line of the player at `index` of a list sorted by best
/// score, best first.
pub open spec fn leaderboard_line(index: int, player: db::Player) -> LeaderboardEntry {
    LeaderboardEntry {
        rank: (index + 1) as u64,
        player_nickname: player.nickname,
        score: player.best_score as u64,
    }
}

/// The leaderboard of a list of players sorted by best score, best first:
/// one line each, ranks counting from one.
pub fn leaderboard_entries(players: &Vec<db::Player>) -> (entries: Vec<LeaderboardEntry>)
    ensures
        entries@ == Seq::new(players@.len(), |i: int| leaderboard_line(i, players@[i])),
{
    let mut entries: Vec<LeaderboardEntry> = Vec::new();
    let mut index: usize = 0;
    while index < players.len()
        invariant
            index <= players.len(),
            entries@ == Seq::new(index as nat, |i: int| leaderboard_line(i, players@[i])),
        decreases players.len() - index,
    {
        let player = &players[index];
        entries.push(
            LeaderboardEntry {
                rank: (index + 1) as u64,
                player_nickname: player.nickname.clone(),
                score: player.best_score as u64,
            },
        );
        index = index + 1;
    }
    entries
}

/// The packet that answers a leaderboard request with these players.
pub fn leaderboard_packet(players: &Vec<db::Player>) -> (packet: Packet)
    ensures
        proto_util::is_leaderboard_response(
            packet,
            Seq::new(
                players@.len(),
                |i: int| proto_util::spec_leaderboard_entry(leaderboard_line(i, players@[i])),
            ),
        ),
{
    let entries = leaderboard_entries(players);
    let packet = proto_util::leaderboard_response(entries.as_slice());
    assert(Seq::new(entries@.len(), |i: int| proto_util::spec_leaderboard_entry(entries@[i]))
        =~= Seq::new(
        players@.len(),
        |i: int| proto_util::spec_leaderboard_entry(leaderboard_line(i, players@[i])),
    ));
    packet
}

impl ClientAgent {
    /// Where the session stands: fresh until a login has succeeded, joined
    /// once a join was sent.
    pub open spec fn state(&self) -> SessionState {
        if self.joined {
            SessionState::Joined
        } else if self.db_player is Some {
            SessionState::Authenticated
        } else {
            SessionState::Fresh
        }
    }

    /// A session is joined only after a login.
    pub open spec fn wf(&self) -> bool {
        self.joined ==> self.db_player is Some
    }

    /// The command that carries a packet of a joined client to the hub, if
    /// there is one for the packet.
    pub open spec fn forwarded(&self, data: Data) -> Option<Command> {
        let connection_id = self.connection_id;
        match data {
            Data::Chat(chat) => Some(Command::Chat { connection_id, msg: chat.msg }),
            Data::UpdatePlayerDirectionAngle(turn) => Some(
                Command::UpdatePlayerDirectionAngle {
                    connection_id,
                    direction_angle: turn.direction_angle,
                },
            ),
            Data::ConsumeSpore(bid) => Some(
                Command::ConsumeSpore { connection_id, spore_id: bid.spore_id },
            ),
            Data::ConsumePlayer(bid) => Some(
                Command::ConsumePlayer {
                    connection_id,
                    victim_connection_id: bid.victim_connection_id,
                },
            ),
            Data::Rush(_) => Some(Command::Rush { connection_id }),
            _ => None,
        }
    }

    /// What the agent does for a packet of its client.
    pub open spec fn packet_action(&self, packet: Packet) -> PacketAction {
        match packet.data {
            None => PacketAction::Ignore,
            Some(Data::Ping(_)) => PacketAction::Reply(packet),
            Some(Data::Login(login)) => PacketAction::FetchAuth {
                username: login.username,
                password: login.password,
            },
            Some(Data::Register(register)) => PacketAction::Register {
                username: register.username,
                password: register.password,
                color: register.color,
            },
            Some(Data::Join(_)) => match self.db_player {
                Some(player) => PacketAction::Forward(
                    Command::Join {
                        connection_id: self.connection_id,
                        player_db_id: player.id,
                        nickname: player.nickname,
                        color: player.color,
                    },
                ),
                None => PacketAction::Ignore,
            },
            Some(Data::Disconnect(_)) => PacketAction::DisconnectSelf,
            Some(Data::LeaderboardRequest(_)) => PacketAction::FetchLeaderboard {
                limit: LEADERBOARD_LIMIT,
            },
            Some(data) => match self.forwarded(data) {
                Some(command) => if self.joined {
                    PacketAction::Forward(command)
                } else {
                    PacketAction::Ignore
                },
                None => PacketAction::Ignore,
            },
        }
    }

    /// The session after a packet of its client: joined once a join went to
    /// the hub, and as it was otherwise.
    pub open spec fn after_packet(&self, packet: Packet) -> ClientAgent {
        if packet.data matches Some(Data::Join(_)) && self.db_player is Some {
            ClientAgent { joined: true, ..*self }
        } else {
            *self
        }
    }

    /// A fresh session for the connection that the hub has registered as
    /// `connection_id`.
    pub fn new(socket_addr: String, connection_id: String) -> (agent: ClientAgent)
        ensures
            agent == (ClientAgent { socket_addr, connection_id, db_player: None, joined: false }),
            agent.state() == SessionState::Fresh,
            agent.wf(),
    {
        ClientAgent { socket_addr, connection_id, db_player: None, joined: false }
    }

    /// The first packet of a session: it tells the client its connection id.
    pub fn hello(&self) -> (packet: Packet)
        ensures
            packet == (Packet {
                data: Some(Data::Hello(crate::proto::Hello { connection_id: self.connection_id })),
            }),
    {
        proto_util::hello_packet(self.connection_id.clone())
    }

    /// The last command of a session: it tells the hub that the agent ends.
    pub fn goodbye(self) -> (command: Command)
        ensures
            command == (Command::UnregisterClientAgent { connection_id: self.connection_id }),
    {
        Command::UnregisterClientAgent { connection_id: self.connection_id }
    }

    /// Handles one packet of the client.
    pub fn handle_packet(&mut self, packet: Packet) -> (action: PacketAction)
        requires
            old(self).wf(),
        ensures
            action == old(self).packet_action(packet),
            *final(self) == old(self).after_packet(packet),
            final(self).wf(),
    {
        let data = match packet.data {
            Some(data) => data,
            None => {
                return PacketAction::Ignore;
            },
        };
        match data {
            Data::Ping(ping) => PacketAction::Reply(Packet { data: Some(Data::Ping(ping)) }),
            Data::Login(login) => PacketAction::FetchAuth {
                username: login.username,
                password: login.password,
            },
            Data::Register(register) => PacketAction::Register {
                username: register.username,
                password: register.password,
                color: register.color,
            },
            Data::Join(_) => {
                let command = match &self.db_player {
                    Some(player) => Command::Join {
                        connection_id: self.connection_id.clone(),
                        player_db_id: player.id,
                        nickname: player.nickname.clone(),
                        color: player.color,
                    },
                    None => {
                        return PacketAction::Ignore;
                    },
                };
                self.joined = true;
                PacketAction::Forward(command)
            },
            Data::Chat(chat) => self.forward(
                Command::Chat { connection_id: self.connection_id.clone(), msg: chat.msg },
            ),
            Data::UpdatePlayerDirectionAngle(turn) => self.forward(
                Command::UpdatePlayerDirectionAngle {
                    connection_id: self.connection_id.clone(),
                    direction_angle: turn.direction_angle,
                },
            ),
            Data::ConsumeSpore(bid) => self.forward(
                Command::ConsumeSpore {
                    connection_id: self.connection_id.clone(),
                    spore_id: bid.spore_id,
                },
            ),
            Data::ConsumePlayer(bid) => self.forward(
                Command::ConsumePlayer {
                    connection_id: self.connection_id.clone(),
                    victim_connection_id: bid.victim_connection_id,
                },
            ),
            Data::Rush(_) => self.forward(Command::Rush { connection_id: self.connection_id.clone() }),
            Data::Disconnect(_) => PacketAction::DisconnectSelf,
            Data::LeaderboardRequest(_) => PacketAction::FetchLeaderboard { limit: LEADERBOARD_LIMIT },
            _ => PacketAction::Ignore,
        }
    }

    /// Passes a command on to the hub for a joined session, and drops it
    /// for any other.
    fn forward(&self, command: Command) -> (action: PacketAction)
        ensures
            action == if self.joined {
                PacketAction::Forward(command)
            } else {
                PacketAction::Ignore
            },
    {
        if self.joined {
            PacketAction::Forward(command)
        } else {
            PacketAction::Ignore
        }
    }

    /// Ends a login with what the store has for the account: the player row
    /// is kept and the login accepted, or the login is refused where there is
    /// none.
    pub fn finish_login(&mut self, player: Option<db::Player>) -> (packet: Packet)
        requires
            old(self).wf(),
        ensures
            match player {
                Some(row) => packet == login_ok() && *final(self) == (ClientAgent {
                    db_player: Some(row),
                    ..*old(self)
                }),
                None => is_login_err(packet, login_failure()) && *final(self) == *old(self),
            },
            final(self).wf(),
    {
        match player {
            Some(row) => {
                self.db_player = Some(row);
                proto_util::login_ok_packet()
            },
            None => login_refusal(),
        }
    }
}

/// How many packets a snapshot of `count` spores takes.
pub open spec fn chunk_count(count: nat) -> nat {
    ((count + SPORE_CHUNKS - 1) / SPORE_CHUNKS as int) as nat
}

/// How many spores the packet `index` of a snapshot of `count` spores
/// carries: a full chunk, or what is left for the last one.
pub open spec fn chunk_len(count: nat, index: int) -> nat {
    if count - index * SPORE_CHUNKS >= SPORE_CHUNKS {
        SPORE_CHUNKS as nat
    } else {
        (count - index * SPORE_CHUNKS) as nat
    }
}

/// What the packet `index` of a snapshot of `spores` carries.
pub open spec fn chunk_updates(spores: Seq<Spore>, index: int) -> Seq<crate::proto::UpdateSpore> {
    Seq::new(
        chunk_len(spores.len(), index),
        |i: int| proto_util::spec_update_spore(spores[index * SPORE_CHUNKS + i]),
    )
}

/// Whether `packets` carry `spores` in order, a chunk each.
pub open spec fn is_spore_stream(packets: Seq<Packet>, spores: Seq<Spore>) -> bool {
    &&& packets.len() == chunk_count(spores.len())
    &&& forall|j: int|
        0 <= j < packets.len() ==> proto_util::is_update_spore_batch(
            #[trigger] packets[j],
            chunk_updates(spores, j),
        )
}

/// Whether `current_score` is above the best score of the account that the
/// session has logged in to.
pub open spec fn beats_best(agent: ClientAgent, current_score: i64) -> bool {
    agent.db_player matches Some(row) && current_score > row.best_score
}

/// What an agent does with a command of the hub. Commands that are not for
/// an agent are dropped.
pub open spec fn command_handled(
    pre: ClientAgent,
    command: Command,
    post: ClientAgent,
    action: CommandAction,
) -> bool {
    match command {
        Command::SendPacket { packet } => post == pre && action == CommandAction::Send(packet),
        Command::SendBytes { bytes } => post == pre && action == CommandAction::Write(bytes),
        Command::UpdateSporeBatch { spore_batch } => {
            &&& post == pre
            &&& action matches CommandAction::Stream(packets)
            &&& is_spore_stream(packets@, spore_batch@)
        },
        Command::SyncPlayerBestScore { current_score } => if beats_best(pre, current_score) {
            &&& post == (ClientAgent {
                db_player: Some(
                    db::Player { best_score: current_score, ..pre.db_player->0 },
                ),
                ..pre
            })
            &&& action == (CommandAction::Persist {
                best_score: current_score,
                id: pre.db_player->0.id,
            })
        } else {
            post == pre && action == CommandAction::Ignore
        },
        Command::DisconnectClient => post == pre && action == CommandAction::Close,
        _ => post == pre && action == CommandAction::Ignore,
    }
}

/// Cuts a snapshot into packets of at most a chunk of spores each.
pub fn chunk_spore_batch(spore_batch: &Vec<Spore>) -> (packets: Vec<Packet>)
    ensures
        is_spore_stream(packets@, spore_batch@),
{
    let count = spore_batch.len();
    let mut packets: Vec<Packet> = Vec::new();
    let mut start: usize = 0;
    while start < count
        invariant
            count == spore_batch.len(),
            start <= count,
            start < count ==> start == packets.len() * SPORE_CHUNKS,
            start == count ==> packets.len() == chunk_count(count as nat),
            forall|j: int|
                0 <= j < packets.len() ==> proto_util::is_update_spore_batch(
                    #[trigger] packets[j],
                    chunk_updates(spore_batch@, j),
                ),
        decreases count - start,
    {
        let end = if count - start > SPORE_CHUNKS {
            start + SPORE_CHUNKS
        } else {
            count
        };
        let chunk = vstd::slice::slice_subrange(spore_batch.as_slice(), start, end);
        let packet = proto_util::update_spore_batch_packet(chunk);
        proof {
            assert(Seq::new(chunk@.len(), |i: int| proto_util::spec_update_spore(chunk@[i]))
                =~= chunk_updates(spore_batch@, packets.len() as int));
        }
        packets.push(packet);
        start = end;
    }
    packets
}

impl ClientAgent {
    /// Handles one command of the hub.
    pub fn handle_command(&mut self, command: Command) -> (action: CommandAction)
        requires
            old(self).wf(),
        ensures
            command_handled(*old(self), command, *final(self), action),
            final(self).wf(),
    {
        match command {
            Command::SendPacket { packet } => CommandAction::Send(packet),
            Command::SendBytes { bytes } => CommandAction::Write(bytes),
            Command::UpdateSporeBatch { spore_batch } => CommandAction::Stream(
                chunk_spore_batch(&spore_batch),
            ),
            Command::SyncPlayerBestScore { current_score } => self.sync_best_score(current_score),
            Command::DisconnectClient => CommandAction::Close,
            _ => CommandAction::Ignore,
        }
    }

    /// Takes note of the player's score: a score above the best one becomes
    /// the best one and is handed on to be stored.
    pub fn sync_best_score(&mut self, current_score: i64) -> (action: CommandAction)
        requires
            old(self).wf(),
        ensures
            command_handled(
                *old(self),
                Command::SyncPlayerBestScore { current_score },
                *final(self),
                action,
            ),
            final(self).wf(),
    {
        match &mut self.db_player {
            Some(row) => {
                if current_score > row.best_score {
                    row.best_score = current_score;
                    CommandAction::Persist { best_score: current_score, id: row.id }
                } else {
                    CommandAction::Ignore
                }
            },
            None => CommandAction::Ignore,
        }
    }
}

/// Every spore of a snapshot is in the packet that its place calls for, at
/// the place within that its place calls for; and no packet is empty or
/// longer than a chunk.
pub proof fn lemma_chunks_cover(spores: Seq<Spore>, i: int)
    requires
        0 <= i < spores.len(),
    ensures
        0 <= i / (SPORE_CHUNKS as int) < chunk_count(spores.len()),
        0 <= i % (SPORE_CHUNKS as int) < chunk_updates(spores, i / (SPORE_CHUNKS as int)).len(),
        chunk_updates(spores, i / (SPORE_CHUNKS as int))[i % (SPORE_CHUNKS as int)]
            == proto_util::spec_update_spore(spores[i]),
        forall|j: int|
            0 <= j < chunk_count(spores.len()) ==> 1 <= #[trigger] chunk_updates(spores, j).len()
                <= SPORE_CHUNKS,
{
}

/// Something that happens to an agent while it runs.
#[derive(Debug, PartialEq, Eq)]
pub enum AgentEvent {
    /// A binary frame arrived, and its bytes are this packet.
    Packet(Packet),
    /// A binary frame arrived whose bytes are no packet.
    Undecodable,
    /// A close frame arrived.
    CloseFrame,
    /// A frame of another kind arrived, a text frame for one.
    OtherFrame,
    /// The stream of frames has failed or ended.
    StreamClosed,
    /// A command of the hub arrived.
    Command(Command),
    /// The queue of commands was closed.
    QueueClosed,
}

/// What a running agent does about an event.
#[derive(Debug, PartialEq, Eq)]
pub enum AgentStep {
    /// Carry out the action for a packet of the client, and go on.
    OnPacket(PacketAction),
    /// Carry out the action for a command of the hub, and go on.
    OnCommand(CommandAction),
    /// Close the connection, and go on until the stream ends.
    CloseStream,
    /// Go on: the frame is dropped.
    Skip,
    /// Stop: send the hub [`ClientAgent::goodbye`] and end.
    Stop,
}

/// What a running agent does about an event, and what becomes of its
/// session. A frame that is no packet is dropped and the connection kept;
/// the agent stops when either of its two sources runs dry.
pub open spec fn event_handled(
    pre: ClientAgent,
    event: AgentEvent,
    post: ClientAgent,
    step: AgentStep,
) -> bool {
    match event {
        AgentEvent::Packet(packet) => post == pre.after_packet(packet) && step == AgentStep::OnPacket(
            pre.packet_action(packet),
        ),
        AgentEvent::Command(command) => step matches AgentStep::OnCommand(action) && command_handled(
            pre,
            command,
            post,
            action,
        ),
        AgentEvent::CloseFrame => post == pre && step == AgentStep::CloseStream,
        AgentEvent::Undecodable => post == pre && step == AgentStep::Skip,
        AgentEvent::OtherFrame => post == pre && step == AgentStep::Skip,
        AgentEvent::StreamClosed => post == pre && step == AgentStep::Stop,
        AgentEvent::QueueClosed => post == pre && step == AgentStep::Stop,
    }
}

impl ClientAgent {
    /// Decides what a running agent does about an event.
    pub fn handle_event(&mut self, event: AgentEvent) -> (step: AgentStep)
        requires
            old(self).wf(),
        ensures
            event_handled(*old(self), event, *final(self), step),
            final(self).wf(),
    {
        match event {
            AgentEvent::Packet(packet) => AgentStep::OnPacket(self.handle_packet(packet)),
            AgentEvent::Command(command) => AgentStep::OnCommand(self.handle_command(command)),
            AgentEvent::CloseFrame => AgentStep::CloseStream,
            AgentEvent::Undecodable => AgentStep::Skip,
            AgentEvent::OtherFrame => AgentStep::Skip,
            AgentEvent::StreamClosed => AgentStep::Stop,
            AgentEvent::QueueClosed => AgentStep::Stop,
        }
    }
}

/// A session only moves forward: what it is after an event is never an
/// earlier state than what it was before, and it is joined only through a
/// join that follows a login.
pub proof fn lemma_session_moves_forward(
    pre: ClientAgent,
    event: AgentEvent,
    post: ClientAgent,
    step: AgentStep,
)
    requires
        pre.wf(),
        event_handled(pre, event, post, step),
    ensures
        post.wf(),
        pre.state() == SessionState::Joined ==> post.state() == SessionState::Joined,
        pre.state() == SessionState::Authenticated ==> post.state() != SessionState::Fresh,
        pre.state() == SessionState::Fresh ==> post.state() == SessionState::Fresh,
        post.connection_id == pre.connection_id,
{
}

/// An agent that is not joined sends the hub nothing but a join, and a
/// fresh one nothing at all.
pub proof fn lemma_only_joined_sessions_reach_the_hub(agent: ClientAgent, packet: Packet)
    requires
        agent.wf(),
    ensures
        agent.state() == SessionState::Fresh ==> agent.packet_action(packet) !is Forward,
        agent.state() == SessionState::Authenticated && agent.packet_action(packet) is Forward
            ==> agent.packet_action(packet)->Forward_0 is Join,
        agent.packet_action(packet) matches PacketAction::Forward(command) ==> !(command
            is RegisterClientAgent) && !(command is UnregisterClientAgent),
{
}

/// In whose name a command speaks to the hub, where it names a client.
pub open spec fn sender_of(command: Command) -> Option<String> {
    match command {
        Command::UnregisterClientAgent { connection_id } => Some(connection_id),
        Command::Join { connection_id, .. } => Some(connection_id),
        Command::Chat { connection_id, .. } => Some(connection_id),
        Command::UpdatePlayerDirectionAngle { connection_id, .. } => Some(connection_id),
        Command::ConsumeSpore { connection_id, .. } => Some(connection_id),
        Command::ConsumePlayer { connection_id, .. } => Some(connection_id),
        Command::Rush { connection_id } => Some(connection_id),
        _ => None,
    }
}

/// Whatever a packet says of its sender, the command that an agent sends
/// the hub for it speaks in the agent's own name.
pub proof fn lemma_forwarded_commands_carry_own_id(agent: ClientAgent, packet: Packet)
    ensures
        agent.packet_action(packet) matches PacketAction::Forward(command) ==> sender_of(command)
            == Some(agent.connection_id),
{
}

/// The best score that a session holds never falls, the session stays
/// logged in to the same account, and what is handed on to be stored is the
/// new best score, which is above the one before.
pub proof fn lemma_best_score_never_falls(
    pre: ClientAgent,
    command: Command,
    post: ClientAgent,
    action: CommandAction,
)
    requires
        command_handled(pre, command, post, action),
        pre.db_player is Some,
    ensures
        post.db_player is Some,
        post.db_player->0.id == pre.db_player->0.id,
        post.db_player->0.best_score >= pre.db_player->0.best_score,
        action matches CommandAction::Persist { best_score, id } ==> id == pre.db_player->0.id
            && best_score == post.db_player->0.best_score && best_score
            > pre.db_player->0.best_score,
{
}

} // verus!
