//! The board of one room: its tokens and placed objects, and the rules by
//! which commands change them.

use vstd::prelude::*;
use crate::counter::Counter;
use crate::game::protocol::{
    copy_opt_text,
    opt_text,
    MessageView,
    PlacedObj,
    PlacedObjView,
    ProtocolMessage,
    Token,
    TokenView,
};
use crate::game::server::{UserInfo, UserView};
use crate::text::{decimal, law_numerals_differ, lemma_decimal_value, numeral_value, same_text};

verus! {

/// The mathematical value of a board.
pub struct BoardView {
    /// The user under whose name new entities are placed.
    pub host: UserView,
    /// The live tokens, oldest first.
    pub tokens: Seq<TokenView>,
    /// How many tokens were ever placed.
    pub token_count: nat,
    /// The live objects, oldest first.
    pub placed_objs: Seq<PlacedObjView>,
    /// How many objects were ever placed.
    pub placed_obj_count: nat,
}

/// What one command does to a board.
pub struct Step {
    /// The board afterwards.
    pub board: BoardView,
    /// The command as the board stamped it.
    pub message: MessageView,
    /// Whether the board took the command.
    pub accepted: bool,
}

/// `id` is the numeral of a number below `count`.
pub open spec fn issued(id: Option<Seq<char>>, count: nat) -> bool {
    &&& id is Some
    &&& id->0 == decimal(numeral_value(id->0))
    &&& numeral_value(id->0) < count
}

impl BoardView {
    /// Token `i` carries the identifier `id`.
    pub open spec fn token_at(self, id: Seq<char>, i: int) -> bool {
        0 <= i < self.tokens.len() && self.tokens[i].id == Some(id)
    }

    /// Some live token carries the identifier `id`.
    pub open spec fn has_token(self, id: Seq<char>) -> bool {
        exists|i: int| self.token_at(id, i)
    }

    /// The place of the token that carries `id`.
    pub open spec fn token_index(self, id: Seq<char>) -> int {
        choose|i: int| self.token_at(id, i)
    }

    /// Object `i` carries the identifier `id`.
    pub open spec fn obj_at(self, id: Seq<char>, i: int) -> bool {
        0 <= i < self.placed_objs.len() && self.placed_objs[i].id == Some(id)
    }

    /// Some live object carries the identifier `id`.
    pub open spec fn has_obj(self, id: Seq<char>) -> bool {
        exists|i: int| self.obj_at(id, i)
    }

    /// The place of the object that carries `id`.
    pub open spec fn obj_index(self, id: Seq<char>) -> int {
        choose|i: int| self.obj_at(id, i)
    }

    /// Token `i` stands on the cell `(x, y)`.
    pub open spec fn stands_at(self, x: i16, y: i16, i: int) -> bool {
        0 <= i < self.tokens.len() && self.tokens[i].x == x && self.tokens[i].y == y
    }

    /// Some live token stands on the cell `(x, y)`.
    pub open spec fn occupied(self, x: i16, y: i16) -> bool {
        exists|i: int| self.stands_at(x, y, i)
    }

    /// Every live entity carries an identifier this board issued, and no two
    /// of a kind carry the same one.
    pub open spec fn wf(self) -> bool {
        &&& forall|i: int|
            0 <= i < self.tokens.len() ==> issued(#[trigger] self.tokens[i].id, self.token_count)
        &&& forall|i: int, j: int|
            0 <= i < j < self.tokens.len() ==> #[trigger] self.tokens[i].id
                != #[trigger] self.tokens[j].id
        &&& forall|i: int|
            0 <= i < self.placed_objs.len() ==> issued(
                #[trigger] self.placed_objs[i].id,
                self.placed_obj_count,
            )
        &&& forall|i: int, j: int|
            0 <= i < j < self.placed_objs.len() ==> #[trigger] self.placed_objs[i].id
                != #[trigger] self.placed_objs[j].id
    }

    /// The token that a draft becomes when this board stamps it.
    pub open spec fn stamped_token(self, draft: TokenView) -> TokenView {
        TokenView {
            id: Some(decimal(self.token_count)),
            controller: Some(self.host.username),
            ..draft
        }
    }

    /// The object that a draft becomes when this board stamps it.
    pub open spec fn stamped_obj(self, draft: PlacedObjView) -> PlacedObjView {
        PlacedObjView {
            id: Some(decimal(self.placed_obj_count)),
            controller: Some(self.host.username),
            ..draft
        }
    }

    /// Placing a token: refused exactly where a live token stands on the
    /// draft's cell.
    pub open spec fn place_token(self, draft: TokenView) -> Step {
        let token = self.stamped_token(draft);
        if self.occupied(draft.x, draft.y) {
            Step { board: self, message: MessageView::PlaceToken(token), accepted: false }
        } else {
            Step {
                board: BoardView {
                    tokens: self.tokens.push(token),
                    token_count: self.token_count + 1,
                    ..self
                },
                message: MessageView::PlaceToken(token),
                accepted: true,
            }
        }
    }

    /// Placing an object: never refused.
    pub open spec fn place_obj(self, draft: PlacedObjView) -> Step {
        let obj = self.stamped_obj(draft);
        Step {
            board: BoardView {
                placed_objs: self.placed_objs.push(obj),
                placed_obj_count: self.placed_obj_count + 1,
                ..self
            },
            message: MessageView::PlaceObj(obj),
            accepted: true,
        }
    }

    /// The board without the token that carries `id`.
    pub open spec fn without_token(self, id: Seq<char>) -> BoardView {
        BoardView { tokens: self.tokens.remove(self.token_index(id)), ..self }
    }

    /// The board without the object that carries `id`.
    pub open spec fn without_obj(self, id: Seq<char>) -> BoardView {
        BoardView { placed_objs: self.placed_objs.remove(self.obj_index(id)), ..self }
    }

    /// The board with the token that carries `id` handed to `controller`.
    pub open spec fn with_controller(self, id: Seq<char>, controller: Seq<char>) -> BoardView {
        let i = self.token_index(id);
        BoardView {
            tokens: self.tokens.update(
                i,
                TokenView { controller: Some(controller), ..self.tokens[i] },
            ),
            ..self
        }
    }

    /// The board with the token that carries `id` shifted by `(dx, dy)`;
    /// each coordinate wraps round at the ends of its range.
    pub open spec fn with_move(self, id: Seq<char>, dx: i16, dy: i16) -> BoardView {
        let i = self.token_index(id);
        let old = self.tokens[i];
        BoardView {
            tokens: self.tokens.update(
                i,
                TokenView { x: old.x.wrapping_add(dx), y: old.y.wrapping_add(dy), ..old },
            ),
            ..self
        }
    }

    /// What the command `m` does to this board. Commands that name a token or
    /// an object are taken exactly when it is live; commands about
    /// connections pass through.
    pub open spec fn step(self, m: MessageView) -> Step {
        match m {
            MessageView::PlaceToken(draft) => self.place_token(draft),
            MessageView::DeleteToken { token_id } => if self.has_token(token_id) {
                Step { board: self.without_token(token_id), message: m, accepted: true }
            } else {
                Step { board: self, message: m, accepted: false }
            },
            MessageView::PlaceObj(draft) => self.place_obj(draft),
            MessageView::DeleteObj { id } => if self.has_obj(id) {
                Step { board: self.without_obj(id), message: m, accepted: true }
            } else {
                Step { board: self, message: m, accepted: false }
            },
            MessageView::SetController { token_id, new_controller } => if self.has_token(
                token_id,
            ) {
                Step {
                    board: self.with_controller(token_id, new_controller),
                    message: m,
                    accepted: true,
                }
            } else {
                Step { board: self, message: m, accepted: false }
            },
            MessageView::Movement { id, token_id, dx, dy } => if self.has_token(token_id) {
                Step { board: self.with_move(token_id, dx, dy), message: m, accepted: true }
            } else {
                Step { board: self, message: m, accepted: false }
            },
            _ => Step { board: self, message: m, accepted: true },
        }
    }

    /// Who controls the token that carries `id`, if it is live.
    pub open spec fn owner(self, id: Seq<char>) -> Option<Seq<char>> {
        if self.has_token(id) {
            self.tokens[self.token_index(id)].controller
        } else {
            None
        }
    }

    /// The messages that rebuild this board for a newcomer: one per live
    /// token, oldest first, then one per live object, oldest first.
    pub open spec fn replay(self) -> Seq<MessageView> {
        Seq::new(self.tokens.len(), |i: int| MessageView::PlaceToken(self.tokens[i])) + Seq::new(
            self.placed_objs.len(),
            |i: int| MessageView::PlaceObj(self.placed_objs[i]),
        )
    }
}

/// On a well-formed board the token that carries an identifier is the only
/// one that does.
pub proof fn lemma_token_index(b: BoardView, id: Seq<char>, i: int)
    requires
        b.wf(),
        b.token_at(id, i),
    ensures
        b.has_token(id),
        b.token_index(id) == i,
{
    let k = b.token_index(id);
    assert(b.token_at(id, k));
    if k != i {
        assert(b.tokens[k].id == b.tokens[i].id);
    }
}

/// On a well-formed board the object that carries an identifier is the only
/// one that does.
pub proof fn lemma_obj_index(b: BoardView, id: Seq<char>, i: int)
    requires
        b.wf(),
        b.obj_at(id, i),
    ensures
        b.has_obj(id),
        b.obj_index(id) == i,
{
    let k = b.obj_index(id);
    assert(b.obj_at(id, k));
    if k != i {
        assert(b.placed_objs[k].id == b.placed_objs[i].id);
    }
}

/// The views of a list of tokens.
pub open spec fn token_views(tokens: Seq<Token>) -> Seq<TokenView> {
    Seq::new(tokens.len(), |i: int| tokens[i]@)
}

/// The views of a list of objects.
pub open spec fn obj_views(objs: Seq<PlacedObj>) -> Seq<PlacedObjView> {
    Seq::new(objs.len(), |i: int| objs[i]@)
}

/// The views of a list of messages.
pub open spec fn message_views(messages: Seq<ProtocolMessage>) -> Seq<MessageView> {
    Seq::new(messages.len(), |i: int| messages[i]@)
}

/// The board of one room.
pub struct GameState {
    host: UserInfo,
    tokens: Vec<Token>,
    token_count: Counter,
    placed_objs: Vec<PlacedObj>,
    placed_obj_count: Counter,
}

impl View for GameState {
    type V = BoardView;

    closed spec fn view(&self) -> BoardView {
        BoardView {
            host: self.host@,
            tokens: token_views(self.tokens@),
            token_count: self.token_count@,
            placed_objs: obj_views(self.placed_objs@),
            placed_obj_count: self.placed_obj_count@,
        }
    }
}

impl GameState {
    /// The invariant of a board: see [`BoardView::wf`].
    pub open spec fn wf(&self) -> bool {
        self@.wf()
    }

    /// The value of an empty board on which `host` places.
    pub open spec fn new_view(host: UserView) -> BoardView {
        BoardView {
            host,
            tokens: Seq::empty(),
            token_count: 0,
            placed_objs: Seq::empty(),
            placed_obj_count: 0,
        }
    }

    /// An empty board on which `host` places.
    pub fn new(host: UserInfo) -> (state: GameState)
        ensures
            state.wf(),
            state@ == GameState::new_view(host@),
    {
        let state = GameState {
            host,
            tokens: Vec::new(),
            token_count: Counter::new(),
            placed_objs: Vec::new(),
            placed_obj_count: Counter::new(),
        };
        assert(state@.tokens =~= Seq::empty());
        assert(state@.placed_objs =~= Seq::empty());
        state
    }

    /// The place of the token that carries `token_id`, if it is live.
    fn find_token(&self, token_id: &str) -> (r: Option<usize>)
        requires
            self.wf(),
        ensures
            r is Some <==> self@.has_token(token_id@),
            r is Some ==> r->0 == self@.token_index(token_id@) && r->0 < self.tokens.len(),
    {
        let mut i: usize = 0;
        while i < self.tokens.len()
            invariant
                self.wf(),
                i <= self.tokens.len(),
                forall|j: int| 0 <= j < i ==> !self@.token_at(token_id@, j),
            decreases self.tokens.len() - i,
        {
            let found = match &self.tokens[i].id {
                Some(id) => same_text(id.as_str(), token_id),
                None => false,
            };
            if found {
                proof {
                    lemma_token_index(self@, token_id@, i as int);
                }
                return Some(i);
            }
            i += 1;
        }
        None
    }

    /// The place of the object that carries `id`, if it is live.
    fn find_obj(&self, id: &str) -> (r: Option<usize>)
        requires
            self.wf(),
        ensures
            r is Some <==> self@.has_obj(id@),
            r is Some ==> r->0 == self@.obj_index(id@) && r->0 < self.placed_objs.len(),
    {
        let mut i: usize = 0;
        while i < self.placed_objs.len()
            invariant
                self.wf(),
                i <= self.placed_objs.len(),
                forall|j: int| 0 <= j < i ==> !self@.obj_at(id@, j),
            decreases self.placed_objs.len() - i,
        {
            let found = match &self.placed_objs[i].id {
                Some(own) => same_text(own.as_str(), id),
                None => false,
            };
            if found {
                proof {
                    lemma_obj_index(self@, id@, i as int);
                }
                return Some(i);
            }
            i += 1;
        }
        None
    }

    /// Whether a live token stands on the cell `(x, y)`.
    fn cell_taken(&self, x: i16, y: i16) -> (r: bool)
        ensures
            r == self@.occupied(x, y),
    {
        let mut i: usize = 0;
        while i < self.tokens.len()
            invariant
                i <= self.tokens.len(),
                forall|j: int| 0 <= j < i ==> !self@.stands_at(x, y, j),
            decreases self.tokens.len() - i,
        {
            if self.tokens[i].x == x && self.tokens[i].y == y {
                assert(self@.stands_at(x, y, i as int));
                return true;
            }
            i += 1;
        }
        false
    }

    /// Applies one command. The board changes, and the command is stamped,
    /// exactly as [`BoardView::step`] says; the result tells whether the
    /// board took the command.
    pub fn process(&mut self, msg: &mut ProtocolMessage) -> (accepted: bool)
        requires
            old(self).wf(),
        ensures
            final(self).wf(),
            (Step { board: final(self)@, message: final(msg)@, accepted }) == old(self)@.step(
                old(msg)@,
            ),
    {
        match msg {
            ProtocolMessage::PlaceToken(token) => {
                token.id = Some(self.token_count.text());
                token.controller = Some(self.host.username.clone());
                if !self.cell_taken(token.x, token.y) {
                    proof {
                        lemma_decimal_value(self.token_count@);
                    }
                    let placed = token.clone();
                    self.token_count.bump();
                    self.tokens.push(placed);
                    assert(self@.tokens =~= old(self)@.tokens.push(token@));
                    true
                } else {
                    false
                }
            },
            ProtocolMessage::DeleteToken { token_id } => {
                match self.find_token(token_id.as_str()) {
                    Some(i) => {
                        self.tokens.remove(i);
                        assert(self@.tokens =~= old(self)@.tokens.remove(i as int));
                        true
                    },
                    None => false,
                }
            },
            ProtocolMessage::PlaceObj(obj) => {
                obj.id = Some(self.placed_obj_count.text());
                obj.controller = Some(self.host.username.clone());
                proof {
                    lemma_decimal_value(self.placed_obj_count@);
                }
                let placed = obj.clone();
                self.placed_obj_count.bump();
                self.placed_objs.push(placed);
                assert(self@.placed_objs =~= old(self)@.placed_objs.push(obj@));
                true
            },
            ProtocolMessage::DeleteObj { id } => {
                match self.find_obj(id.as_str()) {
                    Some(i) => {
                        self.placed_objs.remove(i);
                        assert(self@.placed_objs =~= old(self)@.placed_objs.remove(i as int));
                        true
                    },
                    None => false,
                }
            },
            ProtocolMessage::SetController { token_id, new_controller } => {
                match self.find_token(token_id.as_str()) {
                    Some(i) => {
                        self.tokens[i].controller = Some(new_controller.clone());
                        assert(self@.tokens =~= old(self)@.with_controller(
                            token_id@,
                            new_controller@,
                        ).tokens);
                        true
                    },
                    None => false,
                }
            },
            ProtocolMessage::Movement { token_id, dx, dy, .. } => {
                match self.find_token(token_id.as_str()) {
                    Some(i) => {
                        let x = self.tokens[i].x.wrapping_add(*dx);
                        let y = self.tokens[i].y.wrapping_add(*dy);
                        self.tokens[i].x = x;
                        self.tokens[i].y = y;
                        assert(self@.tokens =~= old(self)@.with_move(token_id@, *dx, *dy).tokens);
                        true
                    },
                    None => false,
                }
            },
            _ => true,
        }
    }

    /// The messages that rebuild the board for a newcomer, in the order of
    /// [`BoardView::replay`]. Each call gives a fresh snapshot.
    pub fn replay(&self) -> (messages: Vec<ProtocolMessage>)
        ensures
            message_views(messages@) == self@.replay(),
    {
        let mut messages: Vec<ProtocolMessage> = Vec::new();
        let mut i: usize = 0;
        while i < self.tokens.len()
            invariant
                i <= self.tokens.len(),
                messages@.len() == i,
                forall|j: int|
                    0 <= j < i ==> (#[trigger] messages@[j])@ == MessageView::PlaceToken(
                        self.tokens@[j]@,
                    ),
            decreases self.tokens.len() - i,
        {
            messages.push(self.tokens[i].to_msg());
            i += 1;
        }
        let mut k: usize = 0;
        while k < self.placed_objs.len()
            invariant
                k <= self.placed_objs.len(),
                messages@.len() == self.tokens.len() + k,
                forall|j: int|
                    0 <= j < self.tokens.len() ==> (#[trigger] messages@[j])@
                        == MessageView::PlaceToken(self.tokens@[j]@),
                forall|j: int|
                    0 <= j < k ==> (#[trigger] messages@[self.tokens.len() + j])@
                        == MessageView::PlaceObj(self.placed_objs@[j]@),
            decreases self.placed_objs.len() - k,
        {
            messages.push(self.placed_objs[k].to_msg());
            k += 1;
        }
        assert(message_views(messages@) =~= self@.replay()) by {
            assert forall|j: int| 0 <= j < messages@.len() implies message_views(messages@)[j]
                == self@.replay()[j] by {
                if j >= self.tokens.len() {
                    assert(messages@[self.tokens.len() + (j - self.tokens.len())]@
                        == MessageView::PlaceObj(self.placed_objs@[j - self.tokens.len()]@));
                }
            }
        }
        messages
    }

    /// Who controls the token that carries `token_id`, if it is live.
    pub fn get_owner(&self, token_id: &str) -> (owner: Option<String>)
        requires
            self.wf(),
        ensures
            opt_text(owner) == self@.owner(token_id@),
    {
        match self.find_token(token_id) {
            Some(i) => copy_opt_text(&self.tokens[i].controller),
            None => None,
        }
    }
}

/// Whether a command places a token or an object.
pub open spec fn is_placement(m: MessageView) -> bool {
    m is PlaceToken || m is PlaceObj
}

/// The board after a run of commands, each applied to what the one before
/// left.
pub open spec fn run(b: BoardView, commands: Seq<MessageView>) -> BoardView
    decreases commands.len(),
{
    if commands.len() == 0 {
        b
    } else {
        run(b, commands.drop_last()).step(commands.last()).board
    }
}

/// Whether a command deletes a token or an object.
pub open spec fn is_deletion(m: MessageView) -> bool {
    m is DeleteToken || m is DeleteObj
}

/// How many placements of a run the board took.
pub open spec fn placements_taken(b: BoardView, commands: Seq<MessageView>) -> nat
    decreases commands.len(),
{
    if commands.len() == 0 {
        0
    } else {
        let before = run(b, commands.drop_last());
        placements_taken(b, commands.drop_last()) + if is_placement(commands.last())
            && before.step(commands.last()).accepted {
            1nat
        } else {
            0nat
        }
    }
}

/// How many deletions of a run the board took.
pub open spec fn deletions_taken(b: BoardView, commands: Seq<MessageView>) -> nat
    decreases commands.len(),
{
    if commands.len() == 0 {
        0
    } else {
        let before = run(b, commands.drop_last());
        deletions_taken(b, commands.drop_last()) + if is_deletion(commands.last())
            && before.step(commands.last()).accepted {
            1nat
        } else {
            0nat
        }
    }
}

/// Every command leaves a well-formed board well-formed.
pub proof fn law_step_keeps_wf(b: BoardView, m: MessageView)
    requires
        b.wf(),
    ensures
        b.step(m).board.wf(),
{
    let after = b.step(m).board;
    match m {
        MessageView::PlaceToken(draft) => {
            lemma_decimal_value(b.token_count);
        },
        MessageView::PlaceObj(draft) => {
            lemma_decimal_value(b.placed_obj_count);
        },
        MessageView::DeleteToken { token_id } => {
            if b.has_token(token_id) {
                let k = b.token_index(token_id);
                assert forall|i: int| 0 <= i < after.tokens.len() implies issued(
                    #[trigger] after.tokens[i].id,
                    after.token_count,
                ) by {
                    if i < k {
                        assert(after.tokens[i] == b.tokens[i]);
                    } else {
                        assert(after.tokens[i] == b.tokens[i + 1]);
                    }
                }
                assert forall|i: int, j: int| 0 <= i < j < after.tokens.len() implies (
                #[trigger] after.tokens[i].id) != (#[trigger] after.tokens[j].id) by {
                    let oi = if i < k { i } else { i + 1 };
                    let oj = if j < k { j } else { j + 1 };
                    assert(after.tokens[i] == b.tokens[oi]);
                    assert(after.tokens[j] == b.tokens[oj]);
                }
            }
        },
        MessageView::DeleteObj { id } => {
            if b.has_obj(id) {
                let k = b.obj_index(id);
                assert forall|i: int| 0 <= i < after.placed_objs.len() implies issued(
                    #[trigger] after.placed_objs[i].id,
                    after.placed_obj_count,
                ) by {
                    if i < k {
                        assert(after.placed_objs[i] == b.placed_objs[i]);
                    } else {
                        assert(after.placed_objs[i] == b.placed_objs[i + 1]);
                    }
                }
                assert forall|i: int, j: int| 0 <= i < j < after.placed_objs.len() implies (
                #[trigger] after.placed_objs[i].id) != (#[trigger] after.placed_objs[j].id) by {
                    let oi = if i < k { i } else { i + 1 };
                    let oj = if j < k { j } else { j + 1 };
                    assert(after.placed_objs[i] == b.placed_objs[oi]);
                    assert(after.placed_objs[j] == b.placed_objs[oj]);
                }
            }
        },
        _ => {},
    }
}

/// The identifier that a placement stamps is new: no live token carries
/// it, and none that was ever placed did.
pub proof fn law_identifiers_are_new(b: BoardView, draft: TokenView, earlier: nat)
    requires
        b.wf(),
        earlier < b.token_count,
    ensures
        b.stamped_token(draft).id == Some(decimal(b.token_count)),
        !b.has_token(decimal(b.token_count)),
        decimal(earlier) != decimal(b.token_count),
{
    lemma_decimal_value(b.token_count);
    law_numerals_differ(earlier, b.token_count);
    if b.has_token(decimal(b.token_count)) {
        let i = b.token_index(decimal(b.token_count));
        assert(b.token_at(decimal(b.token_count), i));
        assert(issued(b.tokens[i].id, b.token_count));
    }
}

/// A second token cannot be placed where one was just placed: whatever
/// became of the first attempt, the second on the same cell is refused and
/// leaves the board as the first left it.
pub proof fn law_second_placement_refused(b: BoardView, first: TokenView, second: TokenView)
    requires
        b.wf(),
        first.x == second.x,
        first.y == second.y,
    ensures
        !b.step(MessageView::PlaceToken(first)).board.step(
            MessageView::PlaceToken(second),
        ).accepted,
        b.step(MessageView::PlaceToken(first)).board.step(MessageView::PlaceToken(second)).board
            == b.step(MessageView::PlaceToken(first)).board,
{
    let one = b.step(MessageView::PlaceToken(first));
    if one.accepted {
        assert(one.board.stands_at(second.x, second.y, b.tokens.len() as int));
    } else {
        let i = choose|i: int| b.stands_at(first.x, first.y, i);
        assert(one.board.stands_at(second.x, second.y, i));
    }
}

/// A command that the board refuses leaves the board as it was.
pub proof fn law_refusal_changes_nothing(b: BoardView, m: MessageView)
    ensures
        !b.step(m).accepted ==> b.step(m).board == b,
{
}

/// The replay holds one message for each live entity.
pub proof fn law_replay_length(b: BoardView)
    ensures
        b.replay().len() == b.tokens.len() + b.placed_objs.len(),
{
}

/// Whatever commands a run holds, the replay grows by one message with
/// each placement that the board takes and shrinks by one with each
/// deletion that it takes; nothing else changes its length.
pub proof fn law_replay_counts(b: BoardView, commands: Seq<MessageView>)
    ensures
        run(b, commands).replay().len() + deletions_taken(b, commands) == b.replay().len()
            + placements_taken(b, commands),
    decreases commands.len(),
{
    if commands.len() > 0 {
        let front = commands.drop_last();
        law_replay_counts(b, front);
        let before = run(b, front);
        let m = commands.last();
        match m {
            MessageView::DeleteToken { token_id } => {
                if before.has_token(token_id) {
                    assert(before.token_at(token_id, before.token_index(token_id)));
                }
            },
            MessageView::DeleteObj { id } => {
                if before.has_obj(id) {
                    assert(before.obj_at(id, before.obj_index(id)));
                }
            },
            MessageView::SetController { token_id, .. } => {
                if before.has_token(token_id) {
                    assert(before.token_at(token_id, before.token_index(token_id)));
                }
            },
            MessageView::Movement { token_id, .. } => {
                if before.has_token(token_id) {
                    assert(before.token_at(token_id, before.token_index(token_id)));
                }
            },
            _ => {},
        }
    }
}

/// After a run in which the board took no deletion, whatever else was
/// sent, the replay holds as many messages more as the board took
/// placements.
pub proof fn law_replay_counts_placements(b: BoardView, commands: Seq<MessageView>)
    requires
        deletions_taken(b, commands) == 0,
    ensures
        run(b, commands).replay().len() == b.replay().len() + placements_taken(b, commands),
{
    law_replay_counts(b, commands);
}

} // verus!
