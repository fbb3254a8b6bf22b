use vstd::prelude::*;

verus! {

/// The block a request is executed in: its height and its time in
/// nanoseconds since the epoch.
#[derive(Debug, Clone, Copy, PartialEq, Eq, Structural)]
pub struct BlockInfo {
    pub height: u64,
    pub time: u64,
}

/// When a grant stops being valid.
#[derive(Debug, Clone, Copy, PartialEq, Eq, Structural)]
pub enum Expiration {
    /// Expires once the chain reaches this block height.
    AtHeight(u64),
    /// Expires once block time (nanoseconds) reaches this value.
    AtTime(u64),
    /// Never expires.
    Never,
}

/// Whether `e` has lapsed at `block`: a height or time bound lapses as soon
/// as the block reaches it.
pub open spec fn expired_at(e: Expiration, block: BlockInfo) -> bool {
    match e {
        Expiration::AtHeight(h) => block.height >= h,
        Expiration::AtTime(t) => block.time >= t,
        Expiration::Never => false,
    }
}

impl Expiration {
    pub fn is_expired(&self, block: &BlockInfo) -> (r: bool)
        ensures
            r == expired_at(*self, *block),
    {
        match self {
            Expiration::AtHeight(h) => block.height >= *h,
            Expiration::AtTime(t) => block.time >= *t,
            Expiration::Never => false,
        }
    }
}

/// A permission for `spender` to act on one token until `expires`.
#[derive(Debug)]
pub struct Approval {
    pub spender: String,
    pub expires: Expiration,
}

/// A stored token: its owner, its individual approvals and its payload.
#[derive(Debug)]
pub struct TokenInfo<T> {
    pub owner: String,
    pub approvals: Vec<Approval>,
    pub token_uri: Option<String>,
    pub extension: T,
}

/// A token record under its id.
#[derive(Debug)]
pub struct Token<T> {
    pub id: String,
    pub info: TokenInfo<T>,
}

/// A permission for `operator` to act on every token of `owner` until `expires`.
#[derive(Debug)]
pub struct OperatorGrant {
    pub owner: String,
    pub operator: String,
    pub expires: Expiration,
}

/// An amount of one currency.
#[derive(Debug)]
pub struct Coin {
    pub denom: String,
    pub amount: u128,
}

/// Who sent a request, and the funds attached to it.
#[derive(Debug)]
pub struct MessageInfo {
    pub sender: String,
    pub funds: Vec<Coin>,
}

/// A request to create a token.
#[derive(Debug)]
pub struct MintMsg<T> {
    pub token_id: String,
    /// The owner's address as the address validator returned it; `None`
    /// where the validator refused the supplied address.
    pub owner: Option<String>,
    pub token_uri: Option<String>,
    pub extension: T,
}

/// Contract-wide configuration.
#[derive(Debug)]
pub struct Config {
    /// The administrator: the only address that may mint, update, freeze,
    /// sweep and hand the role on.
    pub minter: String,
    /// Once set, token content can no longer change.
    pub frozen: bool,
    /// Optional ceiling on the number of live tokens.
    pub token_supply: Option<u64>,
    /// How many reservations have been paid for so far.
    pub reserved_tokens: i32,
}

/// The mathematical value of a [`Config`].
pub struct ConfigModel {
    pub minter: Seq<char>,
    pub frozen: bool,
    pub token_supply: Option<u64>,
    pub reserved_tokens: i32,
}

impl View for Config {
    type V = ConfigModel;

    open spec fn view(&self) -> ConfigModel {
        ConfigModel {
            minter: self.minter@,
            frozen: self.frozen,
            token_supply: self.token_supply,
            reserved_tokens: self.reserved_tokens,
        }
    }
}

impl Clone for Config {
    fn clone(&self) -> (r: Config)
        ensures
            r@ == self@,
    {
        Config {
            minter: self.minter.clone(),
            frozen: self.frozen,
            token_supply: self.token_supply,
            reserved_tokens: self.reserved_tokens,
        }
    }
}

/// The persisted state of one contract instance that a request reads: the
/// configuration, the live count, and the token records and operator grants
/// that the request touches (all of them, or the ones it names).
#[derive(Debug)]
pub struct Store<T> {
    pub config: Config,
    /// The number of live tokens in the whole registry.
    pub token_count: u64,
    /// Token records; ids are unique (see [`Store::wf`]).
    pub tokens: Vec<Token<T>>,
    /// Operator grants, read by the access check.
    pub operators: Vec<OperatorGrant>,
}

impl<T> Store<T> {
    /// Token ids are unique, and the records held are live tokens, so no
    /// more of them than the live count.
    pub open spec fn wf(&self) -> bool {
        &&& self.tokens@.len() <= self.token_count
        &&& forall|i: int, j: int|
            0 <= i < j < self.tokens@.len() ==> #[trigger] self.tokens@[i].id@
                != #[trigger] self.tokens@[j].id@
    }

    pub open spec fn has_token(&self, id: Seq<char>) -> bool {
        exists|i: int| 0 <= i < self.tokens@.len() && #[trigger] self.tokens@[i].id@ == id
    }

    /// The position of the token `id`; meaningful where `has_token(id)`.
    pub open spec fn index_of(&self, id: Seq<char>) -> int {
        choose|i: int| 0 <= i < self.tokens@.len() && #[trigger] self.tokens@[i].id@ == id
    }

    /// The record of the token `id`; meaningful where `has_token(id)`.
    pub open spec fn token(&self, id: Seq<char>) -> &TokenInfo<T> {
        &self.tokens@[self.index_of(id)].info
    }

    /// The number of live tokens.
    pub open spec fn count(&self) -> nat {
        self.token_count as nat
    }

    /// A store with the given configuration and no tokens or grants.
    pub fn new(config: Config) -> (r: Store<T>)
        ensures
            r.wf(),
            r.config@ == config@,
            r.count() == 0,
            r.operators@.len() == 0,
    {
        Store { config, token_count: 0, tokens: Vec::new(), operators: Vec::new() }
    }

    /// Whether the store is well formed, as every handler that reads
    /// tokens requires.
    pub fn is_well_formed(&self) -> (r: bool)
        ensures
            r == self.wf(),
    {
        if self.tokens.len() as u64 > self.token_count {
            return false;
        }
        let n = self.tokens.len();
        let mut i: usize = 0;
        while i < n
            invariant
                n == self.tokens@.len(),
                n <= self.token_count,
                i <= n,
                forall|a: int, b: int|
                    0 <= a < b < n && a < i ==> #[trigger] self.tokens@[a].id@
                        != #[trigger] self.tokens@[b].id@,
            decreases n - i,
        {
            let mut j: usize = i + 1;
            while j < n
                invariant
                    n == self.tokens@.len(),
                    n <= self.token_count,
                    i < j <= n,
                    forall|a: int, b: int|
                        0 <= a < b < n && a < i ==> #[trigger] self.tokens@[a].id@
                            != #[trigger] self.tokens@[b].id@,
                    forall|b: int| i < b < j ==> self.tokens@[i as int].id@ != #[trigger] self.tokens@[b].id@,
                decreases n - j,
            {
                if self.tokens[i].id == self.tokens[j].id {
                    return false;
                }
                j = j + 1;
            }
            i = i + 1;
        }
        true
    }

    /// The number of live tokens.
    pub fn token_count(&self) -> (r: u64)
        ensures
            r == self.count(),
    {
        self.token_count
    }

    /// Where the token `id` is stored, if it exists.
    pub fn find_token(&self, id: &String) -> (r: Option<usize>)
        requires
            self.wf(),
        ensures
            r.is_none() <==> !self.has_token(id@),
            r matches Some(i) ==> i < self.tokens@.len() && self.tokens@[i as int].id@ == id@
                && self.index_of(id@) == i,
    {
        let mut i: usize = 0;
        while i < self.tokens.len()
            invariant
                self.wf(),
                i <= self.tokens@.len(),
                forall|k: int| 0 <= k < i ==> #[trigger] self.tokens@[k].id@ != id@,
            decreases self.tokens@.len() - i,
        {
            if self.tokens[i].id == *id {
                proof {
                    assert(self.has_token(id@));
                    let k = self.index_of(id@);
                    if k < i {
                        assert(self.tokens@[k].id@ != self.tokens@[i as int].id@);
                    } else if k > i {
                        assert(self.tokens@[i as int].id@ != self.tokens@[k].id@);
                    }
                }
                return Some(i);
            }
            i = i + 1;
        }
        None
    }
}

} // verus!
