//! Reward tiers and the per-tier descriptions of a creator's rewards.

use vstd::prelude::*;
use vstd::string::*;
use super::account::FTAccountId;
use super::account_map::AccountMap;
use super::error::MetaDaoError;

verus! {

/// The tier of reward that a supporter chooses.
#[derive(Debug, Clone, Copy, PartialEq, Eq, Structural)]
pub enum UserNFTRank {
    Common,
    Uncommon,
    Rare,
}

impl UserNFTRank {
    /// Position of the tier in every per-tier list: 0, 1 or 2.
    pub open spec fn index(self) -> int {
        match self {
            UserNFTRank::Common => 0,
            UserNFTRank::Uncommon => 1,
            UserNFTRank::Rare => 2,
        }
    }

    /// Position of the tier in every per-tier list.
    pub fn position(&self) -> (i: usize)
        ensures
            i == self.index(),
            i < 3,
    {
        match self {
            UserNFTRank::Common => 0,
            UserNFTRank::Uncommon => 1,
            UserNFTRank::Rare => 2,
        }
    }

    /// The tier's name as it stands in a pledge's tag.
    pub open spec fn tag(self) -> Seq<char> {
        match self {
            UserNFTRank::Common => "common"@,
            UserNFTRank::Uncommon => "uncommon"@,
            UserNFTRank::Rare => "rare"@,
        }
    }

    /// The tier's name as it stands in a pledge's tag.
    pub fn name(&self) -> (text: &'static str)
        ensures
            text@ == self.tag(),
    {
        match self {
            UserNFTRank::Common => "common",
            UserNFTRank::Uncommon => "uncommon",
            UserNFTRank::Rare => "rare",
        }
    }
}

/// The prices of the reward of one tier: for each accepted token, the
/// amount that a pledge must bring.
#[derive(Debug)]
pub enum CreatorNFTRanking {
    Common(AccountMap<u128>),
    Uncommon(AccountMap<u128>),
    Rare(AccountMap<u128>),
}

/// The amount that `prices` asks for in `token`, where it accepts the token.
pub open spec fn required_amount(prices: Map<Seq<char>, u128>, token: Seq<char>) -> Result<
    u128,
    MetaDaoError,
> {
    if prices.contains_key(token) {
        Ok(prices[token])
    } else {
        Err(MetaDaoError::InvalidFTTokenId)
    }
}

impl CreatorNFTRanking {
    /// The tier this entry belongs to.
    pub open spec fn rank(&self) -> UserNFTRank {
        match self {
            Self::Common(_) => UserNFTRank::Common,
            Self::Uncommon(_) => UserNFTRank::Uncommon,
            Self::Rare(_) => UserNFTRank::Rare,
        }
    }

    /// The tier this entry belongs to.
    pub fn tier(&self) -> (tier: UserNFTRank)
        ensures
            tier == self.rank(),
    {
        match self {
            Self::Common(_) => UserNFTRank::Common,
            Self::Uncommon(_) => UserNFTRank::Uncommon,
            Self::Rare(_) => UserNFTRank::Rare,
        }
    }

    /// The price table.
    pub open spec fn prices(&self) -> Map<Seq<char>, u128> {
        match self {
            Self::Common(t) => t@,
            Self::Uncommon(t) => t@,
            Self::Rare(t) => t@,
        }
    }

    /// The amount asked for in the token `ft_token_id`; an error where the
    /// tier does not accept that token.
    pub fn get_amount_from_nft_rank(&self, ft_token_id: &FTAccountId) -> (res: Result<
        u128,
        MetaDaoError,
    >)
        ensures
            res == required_amount(self.prices(), ft_token_id@),
    {
        let inner = match self {
            Self::Common(i) => i,
            Self::Uncommon(i) => i,
            Self::Rare(i) => i,
        };
        match inner.get(ft_token_id) {
            Some(amount) => Ok(*amount),
            None => Err(MetaDaoError::InvalidFTTokenId),
        }
    }
}

impl Clone for CreatorNFTRanking {
    fn clone(&self) -> (res: Self)
        ensures
            res.rank() == self.rank(),
            res.prices() == self.prices(),
    {
        match self {
            Self::Common(t) => Self::Common(t.clone()),
            Self::Uncommon(t) => Self::Uncommon(t.clone()),
            Self::Rare(t) => Self::Rare(t.clone()),
        }
    }
}

/// Title of the reward of one tier.
#[derive(Debug, PartialEq)]
pub enum CreatorNFTTitle {
    Common(String),
    Uncommon(String),
    Rare(String),
}

impl CreatorNFTTitle {
    /// The tier this entry belongs to.
    pub open spec fn rank(&self) -> UserNFTRank {
        match self {
            Self::Common(_) => UserNFTRank::Common,
            Self::Uncommon(_) => UserNFTRank::Uncommon,
            Self::Rare(_) => UserNFTRank::Rare,
        }
    }

    /// The tier this entry belongs to.
    pub fn tier(&self) -> (tier: UserNFTRank)
        ensures
            tier == self.rank(),
    {
        match self {
            Self::Common(_) => UserNFTRank::Common,
            Self::Uncommon(_) => UserNFTRank::Uncommon,
            Self::Rare(_) => UserNFTRank::Rare,
        }
    }

    /// The entry's text.
    pub open spec fn text(&self) -> Seq<char> {
        match self {
            Self::Common(t) => t@,
            Self::Uncommon(t) => t@,
            Self::Rare(t) => t@,
        }
    }

    pub fn get_title(&self) -> (title: &str)
        ensures
            title@ == self.text(),
    {
        match self {
            Self::Common(t) | Self::Uncommon(t) | Self::Rare(t) => t.as_str(),
        }
    }
}

impl Clone for CreatorNFTTitle {
    fn clone(&self) -> (res: Self)
        ensures
            res == *self,
    {
        match self {
            Self::Common(t) => Self::Common(t.clone()),
            Self::Uncommon(t) => Self::Uncommon(t.clone()),
            Self::Rare(t) => Self::Rare(t.clone()),
        }
    }
}

/// Description of the reward of one tier.
#[derive(Debug, PartialEq)]
pub enum CreatorNFTDescription {
    Common(String),
    Uncommon(String),
    Rare(String),
}

impl CreatorNFTDescription {
    /// The tier this entry belongs to.
    pub open spec fn rank(&self) -> UserNFTRank {
        match self {
            Self::Common(_) => UserNFTRank::Common,
            Self::Uncommon(_) => UserNFTRank::Uncommon,
            Self::Rare(_) => UserNFTRank::Rare,
        }
    }

    /// The tier this entry belongs to.
    pub fn tier(&self) -> (tier: UserNFTRank)
        ensures
            tier == self.rank(),
    {
        match self {
            Self::Common(_) => UserNFTRank::Common,
            Self::Uncommon(_) => UserNFTRank::Uncommon,
            Self::Rare(_) => UserNFTRank::Rare,
        }
    }

    /// The entry's text.
    pub open spec fn text(&self) -> Seq<char> {
        match self {
            Self::Common(t) => t@,
            Self::Uncommon(t) => t@,
            Self::Rare(t) => t@,
        }
    }

    pub fn get_description(&self) -> (description: &str)
        ensures
            description@ == self.text(),
    {
        match self {
            Self::Common(t) | Self::Uncommon(t) | Self::Rare(t) => t.as_str(),
        }
    }
}

impl Clone for CreatorNFTDescription {
    fn clone(&self) -> (res: Self)
        ensures
            res == *self,
    {
        match self {
            Self::Common(t) => Self::Common(t.clone()),
            Self::Uncommon(t) => Self::Uncommon(t.clone()),
            Self::Rare(t) => Self::Rare(t.clone()),
        }
    }
}

/// Location of the media of the reward of one tier.
#[derive(Debug, PartialEq)]
pub enum CreatorNFTMedia {
    Common(String),
    Uncommon(String),
    Rare(String),
}

impl CreatorNFTMedia {
    /// The tier this entry belongs to.
    pub open spec fn rank(&self) -> UserNFTRank {
        match self {
            Self::Common(_) => UserNFTRank::Common,
            Self::Uncommon(_) => UserNFTRank::Uncommon,
            Self::Rare(_) => UserNFTRank::Rare,
        }
    }

    /// The tier this entry belongs to.
    pub fn tier(&self) -> (tier: UserNFTRank)
        ensures
            tier == self.rank(),
    {
        match self {
            Self::Common(_) => UserNFTRank::Common,
            Self::Uncommon(_) => UserNFTRank::Uncommon,
            Self::Rare(_) => UserNFTRank::Rare,
        }
    }

    /// The entry's text.
    pub open spec fn text(&self) -> Seq<char> {
        match self {
            Self::Common(t) => t@,
            Self::Uncommon(t) => t@,
            Self::Rare(t) => t@,
        }
    }

    pub fn get_media(&self) -> (media: &str)
        ensures
            media@ == self.text(),
    {
        match self {
            Self::Common(t) | Self::Uncommon(t) | Self::Rare(t) => t.as_str(),
        }
    }
}

impl Clone for CreatorNFTMedia {
    fn clone(&self) -> (res: Self)
        ensures
            res == *self,
    {
        match self {
            Self::Common(t) => Self::Common(t.clone()),
            Self::Uncommon(t) => Self::Uncommon(t.clone()),
            Self::Rare(t) => Self::Rare(t.clone()),
        }
    }
}

/// Number of copies of the reward of one tier.
#[derive(Debug, Clone, Copy, PartialEq, Eq, Structural)]
pub enum CreatorNFTCopies {
    Common(u64),
    Uncommon(u64),
    Rare(u64),
}

impl CreatorNFTCopies {
    /// The tier this entry belongs to.
    pub open spec fn rank(&self) -> UserNFTRank {
        match self {
            Self::Common(_) => UserNFTRank::Common,
            Self::Uncommon(_) => UserNFTRank::Uncommon,
            Self::Rare(_) => UserNFTRank::Rare,
        }
    }

    /// The tier this entry belongs to.
    pub fn tier(&self) -> (tier: UserNFTRank)
        ensures
            tier == self.rank(),
    {
        match self {
            Self::Common(_) => UserNFTRank::Common,
            Self::Uncommon(_) => UserNFTRank::Uncommon,
            Self::Rare(_) => UserNFTRank::Rare,
        }
    }

    /// The number of copies.
    pub open spec fn count(&self) -> u64 {
        match self {
            Self::Common(n) => *n,
            Self::Uncommon(n) => *n,
            Self::Rare(n) => *n,
        }
    }

    pub fn get_copies(&self) -> (copies: u64)
        ensures
            copies == self.count(),
    {
        match self {
            Self::Common(u) | Self::Uncommon(u) | Self::Rare(u) => *u,
        }
    }
}

/// Free-form extra data of the reward of one tier.
#[derive(Debug, PartialEq)]
pub enum CreatorNFTExtra {
    Common(String),
    Uncommon(String),
    Rare(String),
}

impl CreatorNFTExtra {
    /// The tier this entry belongs to.
    pub open spec fn rank(&self) -> UserNFTRank {
        match self {
            Self::Common(_) => UserNFTRank::Common,
            Self::Uncommon(_) => UserNFTRank::Uncommon,
            Self::Rare(_) => UserNFTRank::Rare,
        }
    }

    /// The tier this entry belongs to.
    pub fn tier(&self) -> (tier: UserNFTRank)
        ensures
            tier == self.rank(),
    {
        match self {
            Self::Common(_) => UserNFTRank::Common,
            Self::Uncommon(_) => UserNFTRank::Uncommon,
            Self::Rare(_) => UserNFTRank::Rare,
        }
    }

    /// The entry's text.
    pub open spec fn text(&self) -> Seq<char> {
        match self {
            Self::Common(t) => t@,
            Self::Uncommon(t) => t@,
            Self::Rare(t) => t@,
        }
    }

    pub fn get_extra(&self) -> (extra: &str)
        ensures
            extra@ == self.text(),
    {
        match self {
            Self::Common(t) | Self::Uncommon(t) | Self::Rare(t) => t.as_str(),
        }
    }
}

impl Clone for CreatorNFTExtra {
    fn clone(&self) -> (res: Self)
        ensures
            res == *self,
    {
        match self {
            Self::Common(t) => Self::Common(t.clone()),
            Self::Uncommon(t) => Self::Uncommon(t.clone()),
            Self::Rare(t) => Self::Rare(t.clone()),
        }
    }
}

/// Link to further data on the reward of one tier, if there is any.
#[derive(Debug, PartialEq)]
pub enum CreatorNFTReference {
    Common(Option<String>),
    Uncommon(Option<String>),
    Rare(Option<String>),
}

impl CreatorNFTReference {
    /// The tier this entry belongs to.
    pub open spec fn rank(&self) -> UserNFTRank {
        match self {
            Self::Common(_) => UserNFTRank::Common,
            Self::Uncommon(_) => UserNFTRank::Uncommon,
            Self::Rare(_) => UserNFTRank::Rare,
        }
    }

    /// The tier this entry belongs to.
    pub fn tier(&self) -> (tier: UserNFTRank)
        ensures
            tier == self.rank(),
    {
        match self {
            Self::Common(_) => UserNFTRank::Common,
            Self::Uncommon(_) => UserNFTRank::Uncommon,
            Self::Rare(_) => UserNFTRank::Rare,
        }
    }

    /// The link, if there is one.
    pub open spec fn link(&self) -> Option<String> {
        match self {
            Self::Common(t) => *t,
            Self::Uncommon(t) => *t,
            Self::Rare(t) => *t,
        }
    }

    pub fn get_reference(&self) -> (reference: Option<String>)
        ensures
            reference == self.link(),
    {
        match self {
            Self::Common(t) | Self::Uncommon(t) | Self::Rare(t) => match t {
                Some(link) => Some(link.clone()),
                None => None,
            },
        }
    }
}

impl Clone for CreatorNFTReference {
    fn clone(&self) -> (res: Self)
        ensures
            res == *self,
    {
        match self {
            Self::Common(_) => Self::Common(self.get_reference()),
            Self::Uncommon(_) => Self::Uncommon(self.get_reference()),
            Self::Rare(_) => Self::Rare(self.get_reference()),
        }
    }
}

} // verus!
