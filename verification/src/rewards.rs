//! The rewards that pledges earn: how a reward is described and named.

use vstd::prelude::*;
use vstd::string::*;
use super::account::{AccountId, CreatorAccountId, UserAccountId};
use super::contract::MetaDaoContract;
use super::error::MetaDaoError;
use super::ledger::ObtainedTokenAmounts;
use super::nft::{CreatorNFTRanking, UserNFTRank};
use super::registry::{rankings_in_order, CreatorMetadata};
use super::text::{decimal_digits, decimal_text};

verus! {

/// The name of one reward.
pub type TokenId = String;

/// The description that goes with one reward.
#[derive(Debug, PartialEq)]
pub struct TokenMetadata {
    pub title: Option<String>,
    pub description: Option<String>,
    pub media: Option<String>,
    pub media_hash: Option<Vec<u8>>,
    pub copies: Option<u64>,
    pub issued_at: Option<String>,
    pub expires_at: Option<String>,
    pub starts_at: Option<String>,
    pub updated_at: Option<String>,
    pub extra: Option<String>,
    pub reference: Option<String>,
    pub reference_hash: Option<Vec<u8>>,
}

/// A text that may be missing, as plain data.
pub open spec fn text_of(text: Option<String>) -> Option<Seq<char>> {
    match text {
        Some(t) => Some(t@),
        None => None,
    }
}

/// The description of a reward of which only title, description and number
/// of copies are known.
pub fn get_metadata(
    rarity: CreatorNFTRanking,
    creator_id: AccountId,
    copies: u64,
    description: String,
    title: String,
) -> (metadata: TokenMetadata)
    ensures
        metadata == (TokenMetadata {
            title: Some(title),
            description: Some(description),
            media: None,
            media_hash: None,
            copies: Some(copies),
            issued_at: None,
            expires_at: None,
            starts_at: None,
            updated_at: None,
            extra: None,
            reference: None,
            reference_hash: None,
        }),
{
    TokenMetadata {
        title: Some(title),
        description: Some(description),
        media: None,
        media_hash: None,
        copies: Some(copies),
        issued_at: None,
        expires_at: None,
        starts_at: None,
        updated_at: None,
        extra: None,
        reference: None,
        reference_hash: None,
    }
}

/// Price tables, one per tier.
#[derive(Debug)]
pub struct CreatorNFTRankings {
    rankings: Vec<CreatorNFTRanking>,
}

impl CreatorNFTRankings {
    #[verifier::type_invariant]
    spec fn one_table_per_tier(&self) -> bool {
        rankings_in_order(self.rankings@)
    }

    /// The price tables, one per tier.
    pub closed spec fn tables(&self) -> Seq<CreatorNFTRanking> {
        self.rankings@
    }

    /// Keeps `rankings`, where they are one table per tier in the order of the tiers.
    pub fn new(rankings: Vec<CreatorNFTRanking>) -> (res: Option<CreatorNFTRankings>)
        ensures
            res.is_some() <==> rankings_in_order(rankings@),
            res.is_some() ==> res.unwrap().tables() == rankings@,
    {
        if rankings.len() == 3 && rankings[0].tier() == UserNFTRank::Common && rankings[1].tier()
            == UserNFTRank::Uncommon && rankings[2].tier() == UserNFTRank::Rare {
            Some(CreatorNFTRankings { rankings })
        } else {
            None
        }
    }

    /// The price table of the tier `user_nft_rank`.
    pub fn get_ranking(&self, user_nft_rank: UserNFTRank) -> (ranking: CreatorNFTRanking)
        ensures
            ranking.rank() == user_nft_rank,
            ranking.prices() == self.tables()[user_nft_rank.index()].prices(),
    {
        proof {
            use_type_invariant(self);
        }
        match user_nft_rank {
            UserNFTRank::Common => self.rankings[0].clone(),
            UserNFTRank::Uncommon => self.rankings[1].clone(),
            UserNFTRank::Rare => self.rankings[2].clone(),
        }
    }
}

/// The name of the reward with number `nft_id` and title `title` that the
/// supporter `user` earns for a pledge of tier `rank`.
pub open spec fn token_id_text(nft_id: u32, title: Seq<char>, rank: UserNFTRank, user: Seq<char>) -> Seq<
    char,
> {
    "MetaDao|"@ + decimal_digits(nft_id as nat) + "|"@ + title + "|"@ + rank.tag() + "|"@ + user
        + "|"@
}

/// The time of issue as it stands in a reward's description.
pub open spec fn issued_at_text(block_timestamp: u64) -> Seq<char> {
    "block_timestamp: "@ + decimal_digits(block_timestamp as nat)
}

impl CreatorMetadata {
    /// The description of the reward of tier `nft_rank`, issued at
    /// `block_timestamp`. `media_hash` is the digest of the media's
    /// location. The reward must have a link; its digest is left out.
    pub fn get_token_metadata(
        &self,
        nft_rank: UserNFTRank,
        media_hash: Vec<u8>,
        block_timestamp: u64,
    ) -> (res: Result<TokenMetadata, MetaDaoError>)
        requires
            self.references()[nft_rank.index()].link().is_some(),
        ensures
            res.is_ok(),
            ({
                let m = res.unwrap();
                let i = nft_rank.index();
                &&& text_of(m.title) == Some(self.titles()[i].text())
                &&& text_of(m.description) == Some(self.descriptions()[i].text())
                &&& text_of(m.media) == Some(self.medias()[i].text())
                &&& m.media_hash == Some(media_hash)
                &&& m.copies == Some(self.copies()[i].count())
                &&& text_of(m.issued_at) == Some(issued_at_text(block_timestamp))
                &&& m.expires_at.is_none()
                &&& m.starts_at.is_none()
                &&& m.updated_at.is_none()
                &&& text_of(m.extra) == Some(self.extras()[i].text())
                &&& m.reference == self.references()[i].link()
                &&& m.reference_hash.is_none()
            }),
    {
        let index = nft_rank.position();
        let titles = self.get_titles();
        let descriptions = self.get_descriptions();
        let medias = self.get_medias();
        let copies = self.get_copies();
        let extras = self.get_extras();
        let references = self.get_references();
        let title = Some(String::from_str(titles[index].get_title()));
        let description = Some(String::from_str(descriptions[index].get_description()));
        let media = Some(String::from_str(medias[index].get_media()));
        let issued_at = Some(
            String::from_str("block_timestamp: ").concat(decimal_text(block_timestamp).as_str()),
        );
        let extra = Some(String::from_str(extras[index].get_extra()));
        let reference = references[index].get_reference();
        Ok(
            TokenMetadata {
                title,
                description,
                media,
                media_hash: Some(media_hash),
                copies: Some(copies[index].get_copies()),
                issued_at,
                expires_at: None,
                starts_at: None,
                updated_at: None,
                extra,
                reference,
                reference_hash: None,
            },
        )
    }
}

impl MetaDaoContract {
    /// The name of the reward that `user_id` earns from the creator of
    /// `creator_metadata` for a pledge of tier `nft_rank`.
    pub fn get_token_id(
        &self,
        user_id: &UserAccountId,
        nft_rank: &UserNFTRank,
        creator_metadata: &CreatorMetadata,
    ) -> (id: TokenId)
        ensures
            id@ == token_id_text(
                self.nft_id,
                creator_metadata.titles()[nft_rank.index()].text(),
                *nft_rank,
                user_id@,
            ),
    {
        let titles = creator_metadata.get_titles();
        let number = decimal_text(self.nft_id as u64);
        let id = String::from_str("MetaDao|").concat(number.as_str()).concat("|").concat(
            titles[nft_rank.position()].get_title(),
        ).concat("|").concat(nft_rank.name()).concat("|").concat(user_id.as_str()).concat("|");
        id
    }

    /// The names of the rewards that the supporters of `creator_account_id`
    /// earned in the current epoch, one for each receipt and in the order
    /// of the receipts. An error where the epoch has no registrations or no
    /// ledger, or the creator is not registered.
    pub fn mint_nfts_for_users(&self, creator_account_id: CreatorAccountId) -> (res: Result<
        Vec<TokenId>,
        MetaDaoError,
    >)
        ensures
            match mint_list(*self, creator_account_id@) {
                Ok(rows) => res.is_ok() && res.unwrap()@.len() == rows.len() && forall|i: int|
                    0 <= i < rows.len() ==> (#[trigger] res.unwrap()@[i])@ == token_id_text(
                        self.nft_id,
                        self.creators_metadata@[self.epoch]@[creator_account_id@].titles()[rows[i].nft_rank.index()].text(),
                        rows[i].nft_rank,
                        rows[i].user_id@,
                    ),
                Err(e) => res == Err::<Vec<TokenId>, MetaDaoError>(e),
            },
    {
        let creators_metadata = match self.creators_metadata.get(&self.epoch) {
            Some(all) => all,
            None => {
                return Err(MetaDaoError::InvalidCurrentEpoch);
            },
        };
        let creator_metadata = match creators_metadata.get(&creator_account_id) {
            Some(metadata) => metadata,
            None => {
                return Err(MetaDaoError::CreatorIsNotRegistered);
            },
        };
        let creators_obtained_funds = match self.creator_funding.get(&self.epoch) {
            Some(all) => all,
            None => {
                return Err(MetaDaoError::InvalidCurrentEpoch);
            },
        };
        let creator_obtained_funds = match creators_obtained_funds.get(&creator_account_id) {
            Some(rows) => rows,
            None => {
                return Err(MetaDaoError::CreatorIsNotRegistered);
            },
        };
        let mut ids: Vec<TokenId> = Vec::new();
        let mut i: usize = 0;
        while i < creator_obtained_funds.len()
            invariant
                i <= creator_obtained_funds.len(),
                ids@.len() == i,
                forall|j: int|
                    0 <= j < i ==> (#[trigger] ids@[j])@ == token_id_text(
                        self.nft_id,
                        creator_metadata.titles()[creator_obtained_funds[j].nft_rank.index()].text(),
                        creator_obtained_funds[j].nft_rank,
                        creator_obtained_funds[j].user_id@,
                    ),
            decreases creator_obtained_funds.len() - i,
        {
            let row = &creator_obtained_funds[i];
            let token_id = self.get_token_id(&row.user_id, &row.nft_rank, creator_metadata);
            ids.push(token_id);
            i += 1;
        }
        Ok(ids)
    }
}

/// The receipts for which rewards are due: those of `creator` in the
/// current epoch; or why there are none to name.
pub open spec fn mint_list(contract: MetaDaoContract, creator: Seq<char>) -> Result<
    Seq<ObtainedTokenAmounts>,
    MetaDaoError,
> {
    let e = contract.epoch;
    if !contract.creators_metadata@.contains_key(e) {
        Err(MetaDaoError::InvalidCurrentEpoch)
    } else if !contract.creators_metadata@[e]@.contains_key(creator) {
        Err(MetaDaoError::CreatorIsNotRegistered)
    } else if !contract.creator_funding@.contains_key(e) {
        Err(MetaDaoError::InvalidCurrentEpoch)
    } else if !contract.creator_funding@[e]@.contains_key(creator) {
        Err(MetaDaoError::CreatorIsNotRegistered)
    } else {
        Ok(contract.creator_funding@[e]@[creator]@)
    }
}

} // verus!
