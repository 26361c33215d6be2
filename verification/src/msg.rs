//! The messages that ask for requests and the responses that answer them.

use vstd::prelude::*;
use crate::state::GameState;

verus! {

/// The request that creates the ledger.
#[derive(Clone, Debug, PartialEq)]
pub struct InstantiateMsg {
    /// The counter's first value.
    pub count: i32,
}

/// A move in a game.
#[derive(Clone, Copy, Debug, PartialEq, Eq, Structural)]
pub enum GameMove {
    Rock,
    Paper,
    Scissors,
}

/// How a game ended.
#[derive(Clone, Copy, Debug, PartialEq, Eq, Structural)]
pub enum GameResult {
    HostWins,
    OpponentWins,
    Tie,
}

/// A request that changes the ledger.
#[derive(Clone, Debug, PartialEq)]
pub enum ExecuteMsg {
    /// Adds one to the counter.
    Increment {},
    /// Takes one from the counter.
    Decrement {},
    /// Sets the counter; for the owner only.
    Reset { count: i32 },
    /// Hands the counter to another owner; for the owner only.
    UpdateOwner { address: String },
    /// Opens a game between the sender and `opponent`.
    StartGame { opponent: String, host_move: GameMove },
    /// Names another admin; for the admin only.
    UpdateAdmin { admin: String },
    /// Puts an address on the hook list; for the admin only.
    AddHook { hook: String },
    /// Takes an address off the hook list; for the admin only.
    RemoveHook { hook: String },
    /// Answers the game that `host` opened with `opponent`.
    Respond { host: String, opponent: String, opp_move: GameMove },
}

/// The request that migrates the ledger; it carries nothing.
#[derive(Clone, Debug, PartialEq)]
pub struct MigrateMsg {}

/// A request that only reads the ledger.
#[derive(Clone, Debug, PartialEq)]
pub enum QueryMsg {
    GetCount {},
    GetOwner {},
    GetAdmin {},
    GamesByHost { host: String },
    GamesByOpponent { opponent: String },
}

/// The answer to `QueryMsg::GetCount`.
#[derive(Clone, Debug, PartialEq)]
pub struct CountResponse {
    pub count: i32,
}

/// The answer to `QueryMsg::GetOwner`.
#[derive(Clone, Debug, PartialEq)]
pub struct OwnerResponse {
    pub owner: String,
}

/// The answer to `QueryMsg::GetAdmin`; the text is empty where no admin is set.
#[derive(Clone, Debug, PartialEq)]
pub struct AdminResponse {
    pub admin: String,
}

/// The answer to a request that only reads the ledger, by the kind of the
/// request.
#[derive(Clone, Debug, PartialEq)]
pub enum QueryResponse {
    Count(CountResponse),
    Owner(OwnerResponse),
    Admin(AdminResponse),
    Games(Vec<GameState>),
}

/// One key and value that a response reports of the action taken.
#[derive(Clone, Debug, PartialEq)]
pub struct Attribute {
    pub key: String,
    pub value: String,
}

impl View for Attribute {
    type V = (Seq<char>, Seq<char>);

    open spec fn view(&self) -> (Seq<char>, Seq<char>) {
        (self.key@, self.value@)
    }
}

/// The views of a list of attributes.
pub open spec fn attribute_views(attributes: Seq<Attribute>) -> Seq<(Seq<char>, Seq<char>)> {
    attributes.map_values(|a: Attribute| a@)
}

/// What a request that changes the ledger hands back: messages for the chain to
/// pass on (the ledger's own requests send none), attributes, and the result of
/// a game where one was decided.
#[derive(Clone, Debug, PartialEq)]
pub struct Response {
    pub messages: Vec<String>,
    pub attributes: Vec<Attribute>,
    pub data: Option<GameResult>,
}

/// A response as contracts speak of it.
pub struct ResponseView {
    pub messages: Seq<Seq<char>>,
    pub attributes: Seq<(Seq<char>, Seq<char>)>,
    pub data: Option<GameResult>,
}

impl ResponseView {
    /// The response that reports nothing.
    pub open spec fn empty() -> ResponseView {
        ResponseView { messages: Seq::empty(), attributes: Seq::empty(), data: None }
    }

    /// The response that carries exactly these attributes.
    pub open spec fn of(attributes: Seq<(Seq<char>, Seq<char>)>) -> ResponseView {
        ResponseView { messages: Seq::empty(), attributes, data: None }
    }
}

impl View for Response {
    type V = ResponseView;

    open spec fn view(&self) -> ResponseView {
        ResponseView {
            messages: self.messages@.map_values(|m: String| m@),
            attributes: attribute_views(self.attributes@),
            data: self.data,
        }
    }
}

/// The views of a list of attribute pairs.
pub open spec fn pair_views(attrs: Seq<(&str, &str)>) -> Seq<(Seq<char>, Seq<char>)> {
    attrs.map_values(|p: (&str, &str)| (p.0@, p.1@))
}

impl Response {
    /// The response that reports nothing.
    pub fn new() -> (r: Response)
        ensures
            r@ == ResponseView::empty(),
    {
        let r = Response { messages: Vec::new(), attributes: Vec::new(), data: None };
        assert(r@.messages =~= Seq::empty());
        assert(r@.attributes =~= Seq::empty());
        r
    }

    /// Appends one attribute.
    pub fn add_attribute(self, key: &str, value: &str) -> (r: Response)
        ensures
            r@ == (ResponseView { attributes: self@.attributes.push((key@, value@)), ..self@ }),
    {
        let mut r = self;
        let ghost before = r@;
        r.attributes.push(Attribute { key: key.to_owned(), value: value.to_owned() });
        assert(r@.attributes =~= before.attributes.push((key@, value@)));
        assert(r@.messages =~= before.messages);
        r
    }

    /// Appends the attributes of `attrs`, in their order.
    pub fn add_attributes(self, attrs: Vec<(&str, &str)>) -> (r: Response)
        ensures
            r@ == (ResponseView { attributes: self@.attributes + pair_views(attrs@), ..self@ }),
    {
        let mut r = self;
        let ghost before = r@;
        let mut i: usize = 0;
        assert(pair_views(attrs@).take(0) =~= Seq::empty());
        while i < attrs.len()
            invariant
                i <= attrs.len(),
                r@ == (ResponseView {
                    attributes: before.attributes + pair_views(attrs@).take(i as int),
                    ..before
                }),
            decreases attrs.len() - i,
        {
            let (key, value) = attrs[i];
            r = r.add_attribute(key, value);
            assert(pair_views(attrs@).take(i as int).push((key@, value@)) =~= pair_views(
                attrs@,
            ).take(i + 1));
            i = i + 1;
        }
        assert(pair_views(attrs@).take(i as int) =~= pair_views(attrs@));
        r
    }

    /// Sets the result that the response carries.
    pub fn set_data(self, data: GameResult) -> (r: Response)
        ensures
            r@ == (ResponseView { data: Some(data), ..self@ }),
    {
        let mut r = self;
        r.data = Some(data);
        r
    }
}

impl Default for Response {
    fn default() -> (r: Response)
        ensures
            r@ == ResponseView::empty(),
    {
        Response::new()
    }
}

} // verus!
