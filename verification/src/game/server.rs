//! The hub of one room and the registry of all rooms.

use vstd::prelude::*;
use std::sync::mpsc::SyncSender;
use crate::game::conn::GameError;
use crate::game::protocol::{MessageView, ProtocolMessage, TokenView};
use crate::game::state::{law_second_placement_refused, message_views, BoardView, GameState};
use crate::game::wire::{wire_message, wire_text};
use crate::text::same_text;

verus! {

/// Who a connection speaks for, as the account directory resolved it.
#[derive(Debug)]
pub struct UserInfo {
    pub token: String,
    pub username: String,
    pub is_host: bool,
    pub id: i32,
}

/// The mathematical value of a [`UserInfo`].
pub struct UserView {
    pub token: Seq<char>,
    pub username: Seq<char>,
    pub is_host: bool,
    pub id: i32,
}

impl View for UserInfo {
    type V = UserView;

    open spec fn view(&self) -> UserView {
        UserView { token: self.token@, username: self.username@, is_host: self.is_host, id: self.id }
    }
}

impl Clone for UserInfo {
    fn clone(&self) -> (r: UserInfo)
        ensures
            r@ == self@,
    {
        UserInfo {
            token: self.token.clone(),
            username: self.username.clone(),
            is_host: self.is_host,
            id: self.id,
        }
    }
}

/// `std::sync::mpsc::SyncSender`, the sending end of a bounded queue, taken
/// as it is: nothing is said of what a queue holds.
#[verifier::external_type_specification]
#[verifier::external_body]
#[verifier::reject_recursive_types(T)]
pub struct ExSyncSender<T>(SyncSender<T>);

/// `flurry::HashMap`, taken as it is: what a map of seats holds goes by
/// [`seated`].
#[verifier::external_type_specification]
#[verifier::external_body]
#[verifier::reject_recursive_types(K)]
#[verifier::reject_recursive_types(V)]
#[verifier::reject_recursive_types(S)]
pub struct ExConcurrentMap<K, V, S>(flurry::HashMap<K, V, S>);

/// `flurry::DefaultHashBuilder`, the hasher of such a map, taken as it is.
#[verifier::external_type_specification]
#[verifier::external_body]
pub struct ExHashBuilder(flurry::DefaultHashBuilder);

/// How many texts may wait in the queue of one client. A client that falls
/// further behind loses what is offered to it meanwhile; the room and its
/// other clients are not held up.
pub const QUEUE_BOUND: usize = 100;

/// A client's place in a room: who it is, and the queue that feeds its
/// connection.
pub struct Seat {
    pub user: UserInfo,
    pub tx: SyncSender<String>,
}

/// `entries` lists what a map of seats holds, each key once, in some
/// order: under each key the user and the queue of the seat listed with it.
pub open spec fn lists(
    entries: Seq<(String, Seat)>,
    users: Map<Seq<char>, UserView>,
    queues: Map<Seq<char>, SyncSender<String>>,
) -> bool {
    &&& forall|i: int|
        0 <= i < entries.len() ==> {
            let name = (#[trigger] entries[i]).0@;
            &&& users.contains_key(name)
            &&& users[name] == entries[i].1.user@
            &&& queues.contains_key(name)
            &&& queues[name] == entries[i].1.tx
        }
    &&& forall|i: int, j: int|
        0 <= i < j < entries.len() ==> (#[trigger] entries[i]).0@ != (#[trigger] entries[j]).0@
    &&& forall|name: Seq<char>| #[trigger]
        users.contains_key(name) ==> exists|i: int|
            0 <= i < entries.len() && (#[trigger] entries[i]).0@ == name
}

/// `users` lists the users of `clients`, each once, in some order.
pub open spec fn roster_of(users: Seq<UserView>, clients: Map<Seq<char>, UserView>) -> bool {
    &&& forall|i: int|
        0 <= i < users.len() ==> clients.contains_key((#[trigger] users[i]).username)
            && clients[users[i].username] == users[i]
    &&& forall|i: int, j: int|
        0 <= i < j < users.len() ==> (#[trigger] users[i]).username != (
        #[trigger] users[j]).username
    &&& forall|name: Seq<char>| #[trigger]
        clients.contains_key(name) ==> exists|i: int|
            0 <= i < users.len() && (#[trigger] users[i]).username == name
}

/// No clients at all.
pub open spec fn nobody() -> Map<Seq<char>, UserView> {
    Map::empty()
}

/// No queues at all.
pub open spec fn no_queues() -> Map<Seq<char>, SyncSender<String>> {
    Map::empty()
}

/// The users that a map of seats holds, each under the key of its seat.
pub uninterp spec fn seated(m: flurry::HashMap<String, Seat>) -> Map<Seq<char>, UserView>;

/// The queues that a map of seats holds, each under the key of its seat. A
/// queue and a copy of its sending end are the same queue.
pub uninterp spec fn queues(m: flurry::HashMap<String, Seat>) -> Map<
    Seq<char>,
    SyncSender<String>,
>;

/// `flurry::HashMap::new`: a map that holds nothing.
#[verifier::external_body]
fn seats_new() -> (m: flurry::HashMap<String, Seat>)
    ensures
        seated(m) == nobody(),
        queues(m) == no_queues(),
{
    flurry::HashMap::new()
}

/// `flurry::HashMapRef::contains_key`: whether the map holds the key.
#[verifier::external_body]
fn seats_contains(m: &flurry::HashMap<String, Seat>, name: &str) -> (r: bool)
    ensures
        r == seated(*m).contains_key(name@),
{
    m.pin().contains_key(name)
}

/// `flurry::HashMapRef::insert`: afterwards the map holds the seat under
/// the key, in place of what it held there; its other keys are as before.
#[verifier::external_body]
fn seats_insert(m: &mut flurry::HashMap<String, Seat>, name: String, seat: Seat)
    ensures
        seated(*final(m)) == seated(*old(m)).insert(name@, seat.user@),
        queues(*final(m)) == queues(*old(m)).insert(name@, seat.tx),
{
    m.pin().insert(name, seat);
}

/// `flurry::HashMapRef::remove`: afterwards the map holds nothing under the
/// key; its other keys are as before.
#[verifier::external_body]
fn seats_remove(m: &mut flurry::HashMap<String, Seat>, name: &str)
    ensures
        seated(*final(m)) == seated(*old(m)).remove(name@),
        queues(*final(m)) == queues(*old(m)).remove(name@),
{
    m.pin().remove(name);
}

/// `flurry::HashMapRef::len`: the number of keys.
#[verifier::external_body]
fn seats_len(m: &flurry::HashMap<String, Seat>) -> (n: usize)
    requires
        seated(*m).dom().finite(),
    ensures
        n == seated(*m).dom().len(),
{
    m.pin().len()
}

/// `flurry::HashMapRef::iter`, each entry copied: every key of the map once
/// with the seat held under it, in the order in which the map is walked.
#[verifier::external_body]
fn seats_list(m: &flurry::HashMap<String, Seat>) -> (entries: Vec<(String, Seat)>)
    ensures
        lists(entries@, seated(*m), queues(*m)),
{
    m.pin()
        .iter()
        .map(|(name, seat)| (name.clone(), Seat { user: seat.user.clone(), tx: seat.tx.clone() }))
        .collect()
}

/// `SyncSender::try_send`: offers a text to a queue without waiting; tells
/// whether the queue took it.
#[verifier::external_body]
fn offer(tx: &SyncSender<String>, text: String) -> (delivered: bool)
{
    tx.try_send(text).is_ok()
}

/// One attempt to hand a text to a client.
#[derive(Debug)]
pub struct Delivery {
    /// The client the text was meant for.
    pub username: String,
    /// Whether the client's queue took it.
    pub delivered: bool,
}

/// One attempt to hand a text to a newcomer.
#[derive(Debug)]
pub struct Offer {
    /// The text.
    pub text: String,
    /// Whether the newcomer's queue took it.
    pub delivered: bool,
}

/// What became of a frame that a client sent.
#[derive(Debug)]
pub enum Dispatch {
    /// The frame carried no message.
    Malformed,
    /// The sender may not give this command.
    Unauthorised,
    /// The board refused the command.
    Rejected,
    /// The command was carried out and `text` was offered to every client.
    Broadcast { text: String, sent: Vec<Delivery> },
}

/// What a newcomer was sent on joining.
#[derive(Debug)]
pub struct Joined {
    /// The clients that were in the room already, in the order in which the
    /// newcomer was told of them.
    pub present: Vec<UserInfo>,
    /// What the newcomer alone was offered: the clients present, then the
    /// board.
    pub greeting: Vec<Offer>,
    /// The announcement of the newcomer to the room.
    pub announcement: Dispatch,
}

/// The values of a list of users.
pub open spec fn user_views(users: Seq<UserInfo>) -> Seq<UserView> {
    Seq::new(users.len(), |i: int| users[i]@)
}

/// The names that a list of deliveries went to.
pub open spec fn delivery_names(sent: Seq<Delivery>) -> Seq<Seq<char>> {
    Seq::new(sent.len(), |i: int| sent[i].username@)
}

/// The texts of a list of offers.
pub open spec fn offer_texts(offers: Seq<Offer>) -> Seq<Seq<char>> {
    Seq::new(offers.len(), |i: int| offers[i].text@)
}

/// `sent` names every client of `clients`, each once.
pub open spec fn reaches(sent: Seq<Delivery>, clients: Map<Seq<char>, UserView>) -> bool {
    &&& delivery_names(sent).no_duplicates()
    &&& forall|name: Seq<char>|
        clients.contains_key(name) <==> delivery_names(sent).contains(name)
}

/// `out` reports that the message `m` was offered to every client of
/// `clients`.
pub open spec fn announces(out: Dispatch, m: MessageView, clients: Map<Seq<char>, UserView>) -> bool {
    &&& out is Broadcast
    &&& out->text@ == wire_text(m)
    &&& reaches(out->sent@, clients)
}

/// The message that tells of a client's presence.
pub open spec fn connect_of(user: UserView, host_id: i32) -> MessageView {
    MessageView::Connect { username: user.username, host: user.is_host, host_id }
}

/// What a newcomer is sent for itself: word of each client present, then
/// the replay of the board.
pub open spec fn greeting_texts(present: Seq<UserView>, host_id: i32, board: BoardView) -> Seq<
    Seq<char>,
> {
    Seq::new(present.len(), |i: int| wire_text(connect_of(present[i], host_id))) + Seq::new(
        board.replay().len(),
        |i: int| wire_text(board.replay()[i]),
    )
}

/// The time that has passed at `now` since `since`; none where the clock
/// has not moved on. Times are points on one clock, counted in one unit
/// throughout: whoever drives the rooms picks both.
pub open spec fn elapsed(since: u64, now: u64) -> nat {
    if now >= since {
        (now - since) as nat
    } else {
        0
    }
}

/// The mathematical value of a hub.
pub struct ServerView {
    /// The room's token.
    pub game_token: Seq<char>,
    /// The account of the user the room was opened for.
    pub host_id: i32,
    /// The clients, each under its user name.
    pub clients: Map<Seq<char>, UserView>,
    /// The queue that feeds each client's connection, under the client's
    /// user name.
    pub queues: Map<Seq<char>, SyncSender<String>>,
    /// The board.
    pub board: BoardView,
    /// Since when the room has been without clients, while it is.
    pub idle_since: Option<u64>,
}

impl ServerView {
    /// The invariant of a hub: the board is well-formed, every client is
    /// held under its own name, and the idle clock runs exactly while there
    /// is no client.
    pub open spec fn wf(self) -> bool {
        &&& self.board.wf()
        &&& self.clients.dom().finite()
        &&& forall|name: Seq<char>| #[trigger]
            self.clients.contains_key(name) ==> self.clients[name].username == name
        &&& forall|name: Seq<char>|
            self.clients.contains_key(name) <==> #[trigger] self.queues.contains_key(name)
        &&& (self.idle_since is Some <==> self.clients.dom().len() == 0)
    }

    /// Whether `user` may give the command `m`: the host may give any; a
    /// player may move the tokens it controls; word of connections is
    /// always let through.
    pub open spec fn authorised(self, m: MessageView, user: UserView) -> bool {
        match m {
            MessageView::PlaceToken(_) => user.is_host,
            MessageView::DeleteToken { .. } => user.is_host,
            MessageView::SetController { .. } => user.is_host,
            MessageView::PlaceObj(_) => user.is_host,
            MessageView::DeleteObj { .. } => user.is_host,
            MessageView::Movement { token_id, .. } => user.is_host || self.board.owner(token_id)
                == Some(user.username),
            MessageView::Connect { .. } => true,
            MessageView::Disconnect { .. } => true,
            MessageView::FailedConnection { .. } => true,
        }
    }

    /// The hub after `user` sent the command `m`.
    pub open spec fn after(self, m: MessageView, user: UserView) -> ServerView {
        if self.authorised(m, user) {
            ServerView { board: self.board.step(m).board, ..self }
        } else {
            self
        }
    }

    /// Whether `out` is the right report on the command `m` from `user`.
    pub open spec fn answers(self, m: MessageView, user: UserView, out: Dispatch) -> bool {
        if !self.authorised(m, user) {
            out is Unauthorised
        } else if !self.board.step(m).accepted {
            out is Rejected
        } else {
            announces(out, self.board.step(m).message, self.clients)
        }
    }

    /// The hub after `user` joined with the queue `tx`: the user sits under
    /// its name on that queue, and the idle clock is stopped.
    pub open spec fn joined(self, user: UserView, tx: SyncSender<String>) -> ServerView {
        ServerView {
            clients: self.clients.insert(user.username, user),
            queues: self.queues.insert(user.username, tx),
            idle_since: None,
            ..self
        }
    }

    /// The hub after the client called `name` left at `now`: the idle clock
    /// starts where this empties the room.
    pub open spec fn left(self, name: Seq<char>, now: u64) -> ServerView {
        let clients = self.clients.remove(name);
        ServerView {
            clients,
            queues: self.queues.remove(name),
            idle_since: if clients.dom().len() == 0 {
                if self.idle_since is Some {
                    self.idle_since
                } else {
                    Some(now)
                }
            } else {
                None
            },
            ..self
        }
    }

    /// Whether the room is to be given up at `now`: it has no client and has
    /// had none for longer than `timeout`.
    pub open spec fn expired(self, now: u64, timeout: u64) -> bool {
        &&& self.clients.dom().len() == 0
        &&& self.idle_since is Some
        &&& elapsed(self.idle_since->0, now) > timeout
    }
}

/// The hub of one room: its clients, its board and its idle clock. Whoever
/// shares a hub between connections keeps it under one lock: every change
/// takes the hub as a whole, so joining, leaving and dispatching never
/// overlap.
pub struct Server {
    game_token: String,
    clients: flurry::HashMap<String, Seat>,
    keepalive: Option<u64>,
    state: GameState,
    host_id: i32,
}

impl View for Server {
    type V = ServerView;

    closed spec fn view(&self) -> ServerView {
        ServerView {
            game_token: self.game_token@,
            host_id: self.host_id,
            clients: seated(self.clients),
            queues: queues(self.clients),
            board: self.state@,
            idle_since: self.keepalive,
        }
    }
}

impl Server {
    /// The invariant of a hub: see [`ServerView::wf`].
    pub open spec fn wf(&self) -> bool {
        self@.wf()
    }

    /// A hub for the room `game_token`, opened at `now` for `host`: no
    /// client yet, an empty board on which `host` places, the idle clock
    /// running.
    pub fn new(host: UserInfo, game_token: String, now: u64) -> (server: Server)
        ensures
            server.wf(),
            server@.game_token == game_token@,
            server@.host_id == host.id,
            server@.clients == nobody(),
            server@.queues == no_queues(),
            server@.board == GameState::new_view(host@),
            server@.idle_since == Some(now),
    {
        let host_id = host.id;
        Server {
            game_token,
            clients: seats_new(),
            keepalive: Some(now),
            state: GameState::new(host),
            host_id,
        }
    }

    /// The room's token.
    pub fn game_token(&self) -> (token: &String)
        ensures
            token@ == self@.game_token,
    {
        &self.game_token
    }

    /// Since when the room has been without clients, while it is.
    pub fn idle_since(&self) -> (since: Option<u64>)
        ensures
            since == self@.idle_since,
    {
        self.keepalive
    }

    /// How many clients the room has.
    pub fn client_count(&self) -> (n: usize)
        requires
            self.wf(),
        ensures
            n == self@.clients.dom().len(),
    {
        seats_len(&self.clients)
    }

    /// The board of the room.
    pub fn state(&self) -> (state: &GameState)
        ensures
            state@ == self@.board,
    {
        &self.state
    }

    /// Whether a client of the user's name is in the room.
    pub fn has_client(&self, user: &UserInfo) -> (r: bool)
        ensures
            r == self@.clients.contains_key(user.username@),
    {
        seats_contains(&self.clients, user.username.as_str())
    }

    /// Whether `user` may give the command `msg`.
    pub fn authorised(&self, msg: &ProtocolMessage, user: &UserInfo) -> (r: bool)
        requires
            self.wf(),
        ensures
            r == self@.authorised(msg@, user@),
    {
        match msg {
            ProtocolMessage::PlaceToken(_) => user.is_host,
            ProtocolMessage::DeleteToken { .. } => user.is_host,
            ProtocolMessage::SetController { .. } => user.is_host,
            ProtocolMessage::PlaceObj(_) => user.is_host,
            ProtocolMessage::DeleteObj { .. } => user.is_host,
            ProtocolMessage::Movement { token_id, .. } => {
                if user.is_host {
                    true
                } else {
                    match self.state.get_owner(token_id.as_str()) {
                        Some(owner) => same_text(owner.as_str(), user.username.as_str()),
                        None => false,
                    }
                }
            },
            ProtocolMessage::Connect { .. } => true,
            ProtocolMessage::Disconnect { .. } => true,
            ProtocolMessage::FailedConnection { .. } => true,
        }
    }

    /// Offers `text` to the queue of every client, whatever becomes of each
    /// offer.
    fn broadcast(&self, text: &str) -> (sent: Vec<Delivery>)
        ensures
            reaches(sent@, self@.clients),
    {
        let seats = seats_list(&self.clients);
        let mut sent: Vec<Delivery> = Vec::new();
        let mut i: usize = 0;
        while i < seats.len()
            invariant
                i <= seats.len(),
                sent@.len() == i,
                forall|j: int| 0 <= j < i ==> (#[trigger] sent@[j]).username@ == seats@[j].0@,
            decreases seats.len() - i,
        {
            let delivered = offer(&seats[i].1.tx, text.to_owned());
            sent.push(Delivery { username: seats[i].0.clone(), delivered });
            i += 1;
        }
        proof {
            let names = delivery_names(sent@);
            assert forall|a: int, b: int| 0 <= a < names.len() && 0 <= b < names.len() && a
                != b implies names[a] != names[b] by {
                assert(names[a] == seats@[a].0@);
                assert(names[b] == seats@[b].0@);
            }
            assert forall|name: Seq<char>| self@.clients.contains_key(name) <==> names.contains(
                name,
            ) by {
                if self@.clients.contains_key(name) {
                    let k = choose|k: int| 0 <= k < seats@.len() && seats@[k].0@ == name;
                    assert(names[k] == name);
                }
                if names.contains(name) {
                    let k = choose|k: int| 0 <= k < names.len() && names[k] == name;
                    assert(seats@[k].0@ == name);
                }
            }
        }
        sent
    }

    /// Carries out a command that `user` gave. A command that `user` may
    /// not give, or that the board refuses, changes nothing and reaches
    /// nobody; any other changes the board as [`BoardView::step`] says and
    /// is offered, as the board stamped it, to every client.
    pub fn dispatch(&mut self, msg: ProtocolMessage, user: &UserInfo) -> (out: Dispatch)
        requires
            old(self).wf(),
        ensures
            final(self).wf(),
            final(self)@ == old(self)@.after(msg@, user@),
            old(self)@.answers(msg@, user@, out),
            out is Unauthorised || out is Rejected ==> final(self)@ == old(self)@,
    {
        if !self.authorised(&msg, user) {
            return Dispatch::Unauthorised;
        }
        let mut msg = msg;
        let accepted = self.state.process(&mut msg);
        if !accepted {
            return Dispatch::Rejected;
        }
        let text = msg.to_string();
        let sent = self.broadcast(text.as_str());
        Dispatch::Broadcast { text, sent }
    }

    /// Takes a frame that `user` sent: reads the message it carries and
    /// carries it out as [`Server::dispatch`] does. A frame that carries no
    /// message changes nothing and reaches nobody.
    pub fn recv(&mut self, text: &str, user: &UserInfo) -> (out: Dispatch)
        requires
            old(self).wf(),
        ensures
            final(self).wf(),
            match wire_message(text@) {
                Some(m) => final(self)@ == old(self)@.after(m, user@) && old(self)@.answers(
                    m,
                    user@,
                    out,
                ),
                None => out is Malformed && final(self)@ == old(self)@,
            },
    {
        match ProtocolMessage::from_text(text) {
            Some(msg) => self.dispatch(msg, user),
            None => Dispatch::Malformed,
        }
    }
    /// Tells `tx` of every client in the room; gives the clients told of and
    /// what became of each offer.
    fn greet_clients(&self, tx: &SyncSender<String>) -> (r: (Vec<UserInfo>, Vec<Offer>))
        requires
            self.wf(),
        ensures
            roster_of(user_views(r.0@), self@.clients),
            offer_texts(r.1@) == Seq::new(
                r.0@.len(),
                |i: int| wire_text(connect_of(user_views(r.0@)[i], self@.host_id)),
            ),
    {
        let seats = seats_list(&self.clients);
        let mut present: Vec<UserInfo> = Vec::new();
        let mut greeting: Vec<Offer> = Vec::new();
        let mut i: usize = 0;
        while i < seats.len()
            invariant
                i <= seats.len(),
                present@.len() == i,
                greeting@.len() == i,
                forall|j: int| 0 <= j < i ==> (#[trigger] present@[j])@ == seats@[j].1.user@,
                forall|j: int|
                    0 <= j < i ==> (#[trigger] greeting@[j]).text@ == wire_text(
                        connect_of(seats@[j].1.user@, self@.host_id),
                    ),
            decreases seats.len() - i,
        {
            let there = seats[i].1.user.clone();
            let word = ProtocolMessage::Connect {
                username: there.username.clone(),
                host: there.is_host,
                host_id: self.host_id,
            };
            let text = word.to_string();
            let delivered = offer(tx, text.clone());
            present.push(there);
            greeting.push(Offer { text, delivered });
            i += 1;
        }
        proof {
            let users = user_views(present@);
            assert forall|j: int| 0 <= j < users.len() implies self@.clients.contains_key(
                (#[trigger] users[j]).username,
            ) && self@.clients[users[j].username] == users[j] by {
                assert(users[j] == seats@[j].1.user@);
                assert(self@.clients.contains_key(seats@[j].0@));
            }
            assert forall|a: int, b: int| 0 <= a < b < users.len() implies (
            #[trigger] users[a]).username != (#[trigger] users[b]).username by {
                assert(users[a] == seats@[a].1.user@);
                assert(users[b] == seats@[b].1.user@);
                assert(self@.clients.contains_key(seats@[a].0@));
                assert(self@.clients.contains_key(seats@[b].0@));
            }
            assert forall|name: Seq<char>| #[trigger]
                self@.clients.contains_key(name) implies exists|j: int|
                0 <= j < users.len() && (#[trigger] users[j]).username == name by {
                let k = choose|k: int| 0 <= k < seats@.len() && seats@[k].0@ == name;
                assert(users[k] == seats@[k].1.user@);
                assert(users[k].username == name);
            }
            assert(offer_texts(greeting@) =~= Seq::new(
                present@.len(),
                |i: int| wire_text(connect_of(user_views(present@)[i], self@.host_id)),
            ));
        }
        (present, greeting)
    }

    /// Offers `tx` the replay of the board, after what `greeting` holds.
    fn greet_board(&self, tx: &SyncSender<String>, greeting: &mut Vec<Offer>)
        ensures
            offer_texts(final(greeting)@) == offer_texts(old(greeting)@) + Seq::new(
                self@.board.replay().len(),
                |i: int| wire_text(self@.board.replay()[i]),
            ),
    {
        let messages = self.state.replay();
        let ghost before = offer_texts(greeting@);
        let ghost replay = self@.board.replay();
        assert(replay.len() == messages@.len());
        let mut i: usize = 0;
        while i < messages.len()
            invariant
                i <= messages.len(),
                message_views(messages@) == replay,
                greeting@.len() == before.len() + i,
                forall|j: int| 0 <= j < before.len() ==> (#[trigger] greeting@[j]).text@ == before[j],
                forall|j: int|
                    0 <= j < i ==> (#[trigger] greeting@[before.len() + j]).text@ == wire_text(
                        replay[j],
                    ),
            decreases messages.len() - i,
        {
            assert(message_views(messages@)[i as int] == messages@[i as int]@);
            let text = messages[i].to_string();
            let delivered = offer(tx, text.clone());
            greeting.push(Offer { text, delivered });
            i += 1;
        }
        proof {
            let after = offer_texts(greeting@);
            let want = before + Seq::new(replay.len(), |i: int| wire_text(replay[i]));
            assert(after.len() == want.len());
            assert forall|j: int| 0 <= j < after.len() implies after[j] == want[j] by {
                if j >= before.len() {
                    assert(greeting@[before.len() + (j - before.len())].text@ == wire_text(
                        replay[j - before.len()],
                    ));
                }
            }
            assert(after =~= want);
        }
    }

    /// Admits a client. A user who has a client in the room already is
    /// turned away and nothing changes. Any other is told of every client
    /// present and sent the replay of the board, then takes its seat, which
    /// stops the idle clock, and is announced to every client, itself
    /// included.
    pub fn add_client(&mut self, user: UserInfo, tx: SyncSender<String>) -> (r: Result<
        Joined,
        GameError,
    >)
        requires
            old(self).wf(),
        ensures
            final(self).wf(),
            r is Err <==> old(self)@.clients.contains_key(user.username@),
            match r {
                Err(e) => e is AlreadyConnected && final(self)@ == old(self)@,
                Ok(joined) => {
                    &&& final(self)@ == old(self)@.joined(user@, tx)
                    &&& roster_of(user_views(joined.present@), old(self)@.clients)
                    &&& offer_texts(joined.greeting@) == greeting_texts(
                        user_views(joined.present@),
                        old(self)@.host_id,
                        old(self)@.board,
                    )
                    &&& announces(
                        joined.announcement,
                        connect_of(user@, old(self)@.host_id),
                        final(self)@.clients,
                    )
                },
            },
    {
        if self.has_client(&user) {
            return Err(GameError::AlreadyConnected);
        }
        let (present, mut greeting) = self.greet_clients(&tx);
        self.greet_board(&tx, &mut greeting);
        let word = ProtocolMessage::Connect {
            username: user.username.clone(),
            host: user.is_host,
            host_id: self.host_id,
        };
        let name = user.username.clone();
        let newcomer = user.clone();
        let ghost queue = tx;
        seats_insert(&mut self.clients, name, Seat { user, tx });
        self.keepalive = None;
        assert(self@ == old(self)@.joined(newcomer@, queue));
        assert(self@.clients.dom().contains(newcomer@.username));
        let announcement = self.dispatch(word, &newcomer);
        Ok(Joined { present, greeting, announcement })
    }

    /// Lets a client go at `now`: its seat is given up, every client that
    /// stays is offered word of it, and the idle clock starts where the
    /// room is left empty.
    pub fn close_client(&mut self, user: UserInfo, now: u64) -> (out: Dispatch)
        requires
            old(self).wf(),
        ensures
            final(self).wf(),
            final(self)@ == old(self)@.left(user.username@, now),
            announces(
                out,
                MessageView::Disconnect { username: user.username@ },
                final(self)@.clients,
            ),
    {
        seats_remove(&mut self.clients, user.username.as_str());
        let word = ProtocolMessage::Disconnect { username: user.username };
        let text = word.to_string();
        let sent = self.broadcast(text.as_str());
        let left = seats_len(&self.clients);
        if left == 0 {
            if self.keepalive.is_none() {
                self.keepalive = Some(now);
            }
        }
        Dispatch::Broadcast { text, sent }
    }

    /// Whether the room is to be given up at `now`.
    pub fn expired(&self, now: u64, timeout: u64) -> (r: bool)
        requires
            self.wf(),
        ensures
            r == self@.expired(now, timeout),
    {
        match self.keepalive {
            Some(since) => seats_len(&self.clients) == 0 && now >= since && now - since > timeout,
            None => false,
        }
    }
}

/// The values of a list of hubs.
pub open spec fn room_views(servers: Seq<Server>) -> Seq<ServerView> {
    Seq::new(servers.len(), |i: int| servers[i]@)
}

/// Room `i` of `rooms` goes by the token `token`.
pub open spec fn room_at(rooms: Seq<ServerView>, token: Seq<char>, i: int) -> bool {
    0 <= i < rooms.len() && rooms[i].game_token == token
}

/// Some room of `rooms` goes by the token `token`.
pub open spec fn has_room(rooms: Seq<ServerView>, token: Seq<char>) -> bool {
    exists|i: int| room_at(rooms, token, i)
}

/// The place of the room that goes by `token`.
pub open spec fn room_index(rooms: Seq<ServerView>, token: Seq<char>) -> int {
    choose|i: int| room_at(rooms, token, i)
}

/// Every room is well-formed and no two go by the same token.
pub open spec fn rooms_wf(rooms: Seq<ServerView>) -> bool {
    &&& forall|i: int| 0 <= i < rooms.len() ==> (#[trigger] rooms[i]).wf()
    &&& forall|i: int, j: int|
        0 <= i < j < rooms.len() ==> (#[trigger] rooms[i]).game_token != (
        #[trigger] rooms[j]).game_token
}

/// Among well-formed rooms the room that goes by a token is the only one
/// that does.
pub proof fn lemma_room_index(rooms: Seq<ServerView>, token: Seq<char>, i: int)
    requires
        rooms_wf(rooms),
        room_at(rooms, token, i),
    ensures
        has_room(rooms, token),
        room_index(rooms, token) == i,
{
    let k = room_index(rooms, token);
    assert(room_at(rooms, token, k));
    if k != i {
        assert(rooms[k].game_token == rooms[i].game_token);
    }
}

/// A room as it is opened for `host` at `now`.
pub open spec fn opened(token: Seq<char>, host: UserView, now: u64) -> ServerView {
    ServerView {
        game_token: token,
        host_id: host.id,
        clients: nobody(),
        queues: no_queues(),
        board: GameState::new_view(host),
        idle_since: Some(now),
    }
}

/// The rooms with one for `token` among them: opened for `host` at `now`
/// where there was none.
pub open spec fn resolved(rooms: Seq<ServerView>, token: Seq<char>, host: UserView, now: u64) -> Seq<
    ServerView,
> {
    if has_room(rooms, token) {
        rooms
    } else {
        rooms.push(opened(token, host, now))
    }
}

/// The rooms that a sweep at `now` keeps: those that have not expired, in
/// their order.
pub open spec fn kept(rooms: Seq<ServerView>, now: u64, timeout: u64) -> Seq<ServerView>
    decreases rooms.len(),
{
    if rooms.len() == 0 {
        rooms
    } else if rooms.last().expired(now, timeout) {
        kept(rooms.drop_last(), now, timeout)
    } else {
        kept(rooms.drop_last(), now, timeout).push(rooms.last())
    }
}

/// The tokens of the rooms that a sweep at `now` gives up, in their order.
pub open spec fn given_up(rooms: Seq<ServerView>, now: u64, timeout: u64) -> Seq<Seq<char>>
    decreases rooms.len(),
{
    if rooms.len() == 0 {
        Seq::empty()
    } else if rooms.last().expired(now, timeout) {
        given_up(rooms.drop_last(), now, timeout).push(rooms.last().game_token)
    } else {
        given_up(rooms.drop_last(), now, timeout)
    }
}

/// The texts of a list of strings.
pub open spec fn texts(strings: Seq<String>) -> Seq<Seq<char>> {
    Seq::new(strings.len(), |i: int| strings[i]@)
}

/// The open rooms, oldest first. Whoever shares the registry keeps it under
/// one lock, so that opening, joining and sweeping a room never overlap.
pub struct Registry {
    servers: Vec<Server>,
}

impl View for Registry {
    type V = Seq<ServerView>;

    closed spec fn view(&self) -> Seq<ServerView> {
        room_views(self.servers@)
    }
}

impl Registry {
    /// The invariant of a registry: see [`rooms_wf`].
    pub open spec fn wf(&self) -> bool {
        rooms_wf(self@)
    }

    /// A registry without rooms.
    pub fn new() -> (registry: Registry)
        ensures
            registry.wf(),
            registry@ == Seq::<ServerView>::empty(),
    {
        let registry = Registry { servers: Vec::new() };
        assert(registry@ =~= Seq::<ServerView>::empty());
        registry
    }

    /// How many rooms are open.
    pub fn len(&self) -> (n: usize)
        ensures
            n == self@.len(),
    {
        self.servers.len()
    }

    /// The place of the room that goes by `game_token`, if it is open.
    fn find(&self, game_token: &str) -> (r: Option<usize>)
        requires
            self.wf(),
        ensures
            r is Some <==> has_room(self@, game_token@),
            r is Some ==> r->0 == room_index(self@, game_token@) && r->0 < self.servers.len(),
    {
        let mut i: usize = 0;
        while i < self.servers.len()
            invariant
                self.wf(),
                i <= self.servers.len(),
                forall|j: int| 0 <= j < i ==> !room_at(self@, game_token@, j),
            decreases self.servers.len() - i,
        {
            if same_text(self.servers[i].game_token().as_str(), game_token) {
                proof {
                    lemma_room_index(self@, game_token@, i as int);
                }
                return Some(i);
            }
            i += 1;
        }
        None
    }

    /// The room that goes by `game_token`, if it is open.
    pub fn room(&self, game_token: &str) -> (r: Option<&Server>)
        requires
            self.wf(),
        ensures
            r is Some <==> has_room(self@, game_token@),
            r is Some ==> r->0@ == self@[room_index(self@, game_token@)] && r->0.wf(),
    {
        match self.find(game_token) {
            Some(i) => Some(&self.servers[i]),
            None => None,
        }
    }

    /// Finds the room that goes by `game_token`, or opens it for `host` at
    /// `now` where it is not open yet; gives its place among the rooms. The
    /// other rooms stay as they are, so no two rooms ever go by one token.
    pub fn resolve(&mut self, game_token: String, host: &UserInfo, now: u64) -> (at: usize)
        requires
            old(self).wf(),
        ensures
            final(self).wf(),
            final(self)@ == resolved(old(self)@, game_token@, host@, now),
            room_at(final(self)@, game_token@, at as int),
            at == room_index(final(self)@, game_token@),
    {
        let ghost token = game_token@;
        let ghost before = resolved(self@, token, host@, now);
        let at = match self.find(game_token.as_str()) {
            Some(at) => at,
            None => {
                let server = Server::new(host.clone(), game_token, now);
                self.servers.push(server);
                assert(self@ =~= before);
                self.servers.len() - 1
            },
        };
        proof {
            if !has_room(old(self)@, token) {
                assert forall|a: int, b: int| 0 <= a < b < before.len() implies (
                #[trigger] before[a]).game_token != (#[trigger] before[b]).game_token by {
                    if b == before.len() - 1 {
                        assert(!room_at(old(self)@, token, a));
                    }
                }
            }
            lemma_room_index(before, token, at as int);
        }
        at
    }

    /// Hands a frame that `user` sent to the room that goes by
    /// `game_token`, which takes it as [`Server::recv`] does; the other
    /// rooms stay as they are. `None` where no such room is open.
    pub fn recv(&mut self, game_token: &str, text: &str, user: &UserInfo) -> (r: Option<Dispatch>)
        requires
            old(self).wf(),
        ensures
            final(self).wf(),
            r is Some <==> has_room(old(self)@, game_token@),
            r is None ==> final(self)@ == old(self)@,
            r is Some ==> {
                let i = room_index(old(self)@, game_token@);
                let room = old(self)@[i];
                match wire_message(text@) {
                    Some(m) => final(self)@ == old(self)@.update(i, room.after(m, user@))
                        && room.answers(m, user@, r->0),
                    None => r->0 is Malformed && final(self)@ == old(self)@,
                }
            },
    {
        match self.find(game_token) {
            Some(i) => {
                let out = self.servers[i].recv(text, user);
                assert(self@ =~= old(self)@.update(i as int, self.servers@[i as int]@));
                Some(out)
            },
            None => None,
        }
    }
    /// Lets a client of the room that goes by `game_token` go, as
    /// [`Server::close_client`] does; the other rooms stay as they are.
    /// `None` where no such room is open.
    pub fn close_client(&mut self, game_token: &str, user: UserInfo, now: u64) -> (r: Option<
        Dispatch,
    >)
        requires
            old(self).wf(),
        ensures
            final(self).wf(),
            r is Some <==> has_room(old(self)@, game_token@),
            r is None ==> final(self)@ == old(self)@,
            r is Some ==> {
                let i = room_index(old(self)@, game_token@);
                let room = old(self)@[i];
                &&& final(self)@ == old(self)@.update(i, room.left(user.username@, now))
                &&& announces(
                    r->0,
                    MessageView::Disconnect { username: user.username@ },
                    room.left(user.username@, now).clients,
                )
            },
    {
        match self.find(game_token) {
            Some(i) => {
                let out = self.servers[i].close_client(user, now);
                assert(self@ =~= old(self)@.update(i as int, self.servers@[i as int]@));
                Some(out)
            },
            None => None,
        }
    }
}

/// Seats a client in the room that goes by `game_token`, which is opened
/// for this user at `now` where it is not open yet. The room admits the
/// client as [`Server::add_client`] does; the other rooms stay as they are.
pub fn connect_to_server(
    registry: &mut Registry,
    user: UserInfo,
    game_token: String,
    tx: SyncSender<String>,
    now: u64,
) -> (r: Result<Joined, GameError>)
    requires
        old(registry).wf(),
    ensures
        final(registry).wf(),
        ({
            let before = resolved(old(registry)@, game_token@, user@, now);
            let i = room_index(before, game_token@);
            let room = before[i];
            &&& r is Err <==> room.clients.contains_key(user.username@)
            &&& match r {
                Err(e) => e is AlreadyConnected && final(registry)@ == old(registry)@,
                Ok(joined) => {
                    &&& final(registry)@ == before.update(i, room.joined(user@, tx))
                    &&& roster_of(user_views(joined.present@), room.clients)
                    &&& offer_texts(joined.greeting@) == greeting_texts(
                        user_views(joined.present@),
                        room.host_id,
                        room.board,
                    )
                    &&& announces(
                        joined.announcement,
                        connect_of(user@, room.host_id),
                        room.joined(user@, tx).clients,
                    )
                },
            }
        }),
{
    let ghost token = game_token@;
    let ghost before = resolved(registry@, token, user@, now);
    let i = registry.resolve(game_token, &user, now);
    proof {
        if !has_room(old(registry)@, token) {
            lemma_room_index(before, token, before.len() - 1);
        }
    }
    let r = registry.servers[i].add_client(user, tx);
    assert(registry@ =~= before.update(i as int, registry.servers@[i as int]@));
    r
}

/// One sweep of the rooms at `now`: gives up every room that has had no
/// client for longer than `timeout` and keeps the others, in their order.
/// Returns the tokens of the rooms given up.
pub fn server_monitor(registry: &mut Registry, now: u64, timeout: u64) -> (killed: Vec<String>)
    requires
        old(registry).wf(),
    ensures
        final(registry).wf(),
        final(registry)@ == kept(old(registry)@, now, timeout),
        texts(killed@) == given_up(old(registry)@, now, timeout),
{
    let ghost all = registry@;
    let ghost mut seen: int = 0;
    let mut killed: Vec<String> = Vec::new();
    let mut i: usize = 0;
    assert(all.take(0) =~= Seq::<ServerView>::empty());
    assert(all.skip(0) =~= all);
    assert(kept(all.take(0), now, timeout) + all.skip(0) =~= all);
    while i < registry.servers.len()
        invariant
            registry.wf(),
            0 <= seen <= all.len(),
            i == kept(all.take(seen), now, timeout).len(),
            registry@ == kept(all.take(seen), now, timeout) + all.skip(seen),
            texts(killed@) == given_up(all.take(seen), now, timeout),
        decreases all.len() - seen,
    {
        let ghost front = kept(all.take(seen), now, timeout);
        assert(registry@.len() == front.len() + (all.len() - seen));
        assert(seen < all.len());
        assert(registry@[i as int] == all[seen]);
        assert(all.take(seen + 1).drop_last() =~= all.take(seen));
        assert(all.take(seen + 1).last() == all[seen]);
        if registry.servers[i].expired(now, timeout) {
            let ghost before = registry@;
            let server = registry.servers.remove(i);
            assert(registry@ =~= before.remove(i as int));
            assert(registry@ =~= front + all.skip(seen + 1));
            assert(registry.wf()) by {
                assert forall|a: int| 0 <= a < registry@.len() implies (
                #[trigger] registry@[a]).wf() by {
                    let o = if a < i { a } else { a + 1 };
                    assert(registry@[a] == before[o]);
                }
                assert forall|a: int, b: int| 0 <= a < b < registry@.len() implies (
                #[trigger] registry@[a]).game_token != (#[trigger] registry@[b]).game_token by {
                    let oa = if a < i { a } else { a + 1 };
                    let ob = if b < i { b } else { b + 1 };
                    assert(registry@[a] == before[oa]);
                    assert(registry@[b] == before[ob]);
                }
            }
            let ghost names = texts(killed@);
            killed.push(server.game_token);
            assert(texts(killed@) =~= names.push(all[seen].game_token));
        } else {
            assert(front.push(all[seen]) + all.skip(seen + 1) =~= front + all.skip(seen));
            i += 1;
        }
        proof {
            seen = seen + 1;
        }
    }
    assert(seen == all.len()) by {
        assert(registry@.len() == kept(all.take(seen), now, timeout).len() + (all.len() - seen));
    }
    assert(all.take(seen) =~= all);
    assert(registry@ =~= kept(all, now, timeout));
    killed
}

/// A sweep gives up every room that has expired: no room goes by its token
/// afterwards.
pub proof fn law_sweep_gives_up_expired(rooms: Seq<ServerView>, now: u64, timeout: u64, i: int)
    requires
        rooms_wf(rooms),
        0 <= i < rooms.len(),
        rooms[i].expired(now, timeout),
    ensures
        !has_room(kept(rooms, now, timeout), rooms[i].game_token),
    decreases rooms.len(),
{
    lemma_kept_from(rooms, now, timeout);
    let after = kept(rooms, now, timeout);
    if has_room(after, rooms[i].game_token) {
        let k = room_index(after, rooms[i].game_token);
        assert(room_at(after, rooms[i].game_token, k));
        let o = choose|o: int| 0 <= o < rooms.len() && rooms[o] == after[k];
        if o < i {
            assert(rooms[o].game_token != rooms[i].game_token);
        } else if i < o {
            assert(rooms[i].game_token != rooms[o].game_token);
        }
    }
}

/// A sweep keeps every room that has not expired, as it is.
pub proof fn law_sweep_keeps_rest(rooms: Seq<ServerView>, now: u64, timeout: u64, i: int)
    requires
        0 <= i < rooms.len(),
        !rooms[i].expired(now, timeout),
    ensures
        kept(rooms, now, timeout).contains(rooms[i]),
    decreases rooms.len(),
{
    let front = rooms.drop_last();
    if i == rooms.len() - 1 {
        let after = kept(rooms, now, timeout);
        assert(after[after.len() - 1] == rooms[i]);
    } else {
        law_sweep_keeps_rest(front, now, timeout, i);
        let inner = kept(front, now, timeout);
        let k = choose|k: int| 0 <= k < inner.len() && inner[k] == front[i];
        assert(kept(rooms, now, timeout)[k] == rooms[i]);
    }
}

/// Every room that a sweep keeps was there before and had not expired.
pub proof fn lemma_kept_from(rooms: Seq<ServerView>, now: u64, timeout: u64)
    ensures
        forall|k: int|
            0 <= k < kept(rooms, now, timeout).len() ==> !(#[trigger] kept(
                rooms,
                now,
                timeout,
            )[k]).expired(now, timeout) && exists|o: int|
                0 <= o < rooms.len() && rooms[o] == kept(rooms, now, timeout)[k],
    decreases rooms.len(),
{
    if rooms.len() > 0 {
        let front = rooms.drop_last();
        lemma_kept_from(front, now, timeout);
        let after = kept(rooms, now, timeout);
        let inner = kept(front, now, timeout);
        assert forall|k: int| 0 <= k < after.len() implies !(#[trigger] after[k]).expired(
            now,
            timeout,
        ) && exists|o: int| 0 <= o < rooms.len() && rooms[o] == after[k] by {
            if k < inner.len() {
                assert(after[k] == inner[k]);
                let o = choose|o: int| 0 <= o < front.len() && front[o] == inner[k];
                assert(rooms[o] == after[k]);
            } else {
                assert(rooms[rooms.len() - 1] == after[k]);
            }
        }
    }
}

/// A room with a client in it has not expired, whatever the time: once a
/// client has joined, no sweep gives the room up until the last one leaves.
pub proof fn law_joined_room_stays(
    room: ServerView,
    user: UserView,
    tx: SyncSender<String>,
    now: u64,
    timeout: u64,
)
    requires
        room.wf(),
    ensures
        room.joined(user, tx).wf(),
        !room.joined(user, tx).expired(now, timeout),
{
    assert(room.joined(user, tx).clients.dom().contains(user.username));
}

/// While a client of a name is in the room, nobody else can join under
/// that name, and once it has left somebody can.
pub proof fn law_one_seat_per_name(
    room: ServerView,
    first: UserView,
    tx: SyncSender<String>,
    second: UserView,
    now: u64,
)
    requires
        room.wf(),
        first.username == second.username,
    ensures
        room.joined(first, tx).clients.contains_key(second.username),
        !room.joined(first, tx).left(first.username, now).clients.contains_key(second.username),
{
}

/// A newcomer sits on the queue it came with, and everybody else stays on
/// the queue it had.
pub proof fn law_join_keeps_queues(
    room: ServerView,
    user: UserView,
    tx: SyncSender<String>,
    other: Seq<char>,
)
    requires
        other != user.username,
    ensures
        room.joined(user, tx).queues.contains_key(user.username),
        room.joined(user, tx).queues[user.username] == tx,
        room.joined(user, tx).queues.contains_key(other) == room.queues.contains_key(other),
        room.queues.contains_key(other) ==> room.joined(user, tx).queues[other]
            == room.queues[other],
{
}

/// When a client leaves, those who stay keep their queues, and the queue of
/// the one who left is given up.
pub proof fn law_leave_keeps_queues(room: ServerView, name: Seq<char>, now: u64, other: Seq<char>)
    requires
        other != name,
    ensures
        !room.left(name, now).queues.contains_key(name),
        room.left(name, now).queues.contains_key(other) == room.queues.contains_key(other),
        room.queues.contains_key(other) ==> room.left(name, now).queues[other]
            == room.queues[other],
{
}

/// A client that leaves and comes back under its name sits on the queue it
/// came back with.
pub proof fn law_rejoin_takes_new_queue(
    room: ServerView,
    first: UserView,
    old_tx: SyncSender<String>,
    second: UserView,
    new_tx: SyncSender<String>,
    now: u64,
)
    requires
        first.username == second.username,
    ensures
        room.joined(first, old_tx).left(first.username, now).joined(
            second,
            new_tx,
        ).queues[second.username] == new_tx,
        room.joined(first, old_tx).left(first.username, now).joined(
            second,
            new_tx,
        ).clients[second.username] == second,
{
}

/// A newcomer is sent, for itself, one message for each client present and
/// one for each live token and object.
pub proof fn law_greeting_length(present: Seq<UserView>, host_id: i32, board: BoardView)
    ensures
        greeting_texts(present, host_id, board).len() == present.len() + board.tokens.len()
            + board.placed_objs.len(),
{
}

/// Once a client has joined, every command that the room carries out is
/// offered to it too.
pub proof fn law_newcomer_hears(
    room: ServerView,
    user: UserView,
    tx: SyncSender<String>,
    m: MessageView,
    sender: UserView,
    out: Dispatch,
)
    requires
        room.joined(user, tx).answers(m, sender, out),
        out is Broadcast,
    ensures
        delivery_names(out->sent@).contains(user.username),
{
    assert(room.joined(user, tx).clients.contains_key(user.username));
}

/// Only the host edits the board: a command of a player that places,
/// deletes or hands over is dropped, changes nothing and reaches nobody.
pub proof fn law_players_cannot_edit(room: ServerView, user: UserView, m: MessageView, out: Dispatch)
    requires
        !user.is_host,
        m is PlaceToken || m is DeleteToken || m is PlaceObj || m is DeleteObj || m
            is SetController,
        room.answers(m, user, out),
    ensures
        out is Unauthorised,
        room.after(m, user) == room,
{
}

/// A player moves the tokens it controls, and no others: the move of a
/// token that the player controls is carried out and offered to every
/// client; the move of any other token is dropped.
pub proof fn law_players_move_their_own(
    room: ServerView,
    user: UserView,
    id: Seq<char>,
    token_id: Seq<char>,
    dx: i16,
    dy: i16,
    out: Dispatch,
)
    requires
        !user.is_host,
        room.answers(MessageView::Movement { id, token_id, dx, dy }, user, out),
    ensures
        room.board.owner(token_id) == Some(user.username) ==> announces(
            out,
            MessageView::Movement { id, token_id, dx, dy },
            room.clients,
        ) && room.after(MessageView::Movement { id, token_id, dx, dy }, user).board
            == room.board.with_move(token_id, dx, dy),
        room.board.owner(token_id) != Some(user.username) ==> out is Unauthorised && room.after(
            MessageView::Movement { id, token_id, dx, dy },
            user,
        ) == room,
{
}

/// A placement on a cell where a token was just placed is refused, changes
/// nothing and reaches nobody.
pub proof fn law_refused_placement_is_silent(
    room: ServerView,
    host: UserView,
    first: TokenView,
    second: TokenView,
    out: Dispatch,
)
    requires
        room.wf(),
        host.is_host,
        first.x == second.x,
        first.y == second.y,
        room.after(MessageView::PlaceToken(first), host).answers(
            MessageView::PlaceToken(second),
            host,
            out,
        ),
    ensures
        out is Rejected,
        room.after(MessageView::PlaceToken(first), host).after(
            MessageView::PlaceToken(second),
            host,
        ) == room.after(MessageView::PlaceToken(first), host),
{
    law_second_placement_refused(room.board, first, second);
}

} // verus!
