//! What a creator registers for an epoch: prices and descriptions of the
//! rewards, one entry per tier.

use vstd::prelude::*;
use super::account::{CreatorAccountId, FTAccountId};
use super::consts::creator_registry_deposit;
use super::contract::{
    carried_out, lemma_account_sets_insert, lemma_creator_ledger_insert,
    lemma_obtained_accounts_insert, lemma_registrations_insert, MetaDaoContract,
};
use super::error::MetaDaoError;
use super::ledger::{obtained_rows, ObtainedTokenAmounts};
use super::nft::{
    required_amount, CreatorNFTCopies, CreatorNFTDescription, CreatorNFTExtra, CreatorNFTMedia, CreatorNFTRanking,
    CreatorNFTReference, CreatorNFTTitle, UserNFTRank,
};

verus! {

/// A creator's registration. Each list holds exactly three entries, the
/// common, the uncommon and the rare one, in this order.
#[derive(Debug)]
pub struct CreatorMetadata {
    nft_ranks: Vec<CreatorNFTRanking>,
    titles: Vec<CreatorNFTTitle>,
    descriptions: Vec<CreatorNFTDescription>,
    medias: Vec<CreatorNFTMedia>,
    copies: Vec<CreatorNFTCopies>,
    extras: Vec<CreatorNFTExtra>,
    references: Vec<CreatorNFTReference>,
}

/// Whether `list` holds one entry per tier, in the order of the tiers.
pub open spec fn rankings_in_order(list: Seq<CreatorNFTRanking>) -> bool {
    &&& list.len() == 3
    &&& list[0].rank() == UserNFTRank::Common
    &&& list[1].rank() == UserNFTRank::Uncommon
    &&& list[2].rank() == UserNFTRank::Rare
}

/// Whether `list` holds one entry per tier, in the order of the tiers.
fn check_rankings(list: &Vec<CreatorNFTRanking>) -> (ok: bool)
    ensures
        ok == rankings_in_order(list@),
{
    list.len() == 3 && list[0].tier() == UserNFTRank::Common && list[1].tier()
        == UserNFTRank::Uncommon && list[2].tier() == UserNFTRank::Rare
}

/// Whether `list` holds one entry per tier, in the order of the tiers.
pub open spec fn titles_in_order(list: Seq<CreatorNFTTitle>) -> bool {
    &&& list.len() == 3
    &&& list[0].rank() == UserNFTRank::Common
    &&& list[1].rank() == UserNFTRank::Uncommon
    &&& list[2].rank() == UserNFTRank::Rare
}

/// Whether `list` holds one entry per tier, in the order of the tiers.
fn check_titles(list: &Vec<CreatorNFTTitle>) -> (ok: bool)
    ensures
        ok == titles_in_order(list@),
{
    list.len() == 3 && list[0].tier() == UserNFTRank::Common && list[1].tier()
        == UserNFTRank::Uncommon && list[2].tier() == UserNFTRank::Rare
}

/// Whether `list` holds one entry per tier, in the order of the tiers.
pub open spec fn descriptions_in_order(list: Seq<CreatorNFTDescription>) -> bool {
    &&& list.len() == 3
    &&& list[0].rank() == UserNFTRank::Common
    &&& list[1].rank() == UserNFTRank::Uncommon
    &&& list[2].rank() == UserNFTRank::Rare
}

/// Whether `list` holds one entry per tier, in the order of the tiers.
fn check_descriptions(list: &Vec<CreatorNFTDescription>) -> (ok: bool)
    ensures
        ok == descriptions_in_order(list@),
{
    list.len() == 3 && list[0].tier() == UserNFTRank::Common && list[1].tier()
        == UserNFTRank::Uncommon && list[2].tier() == UserNFTRank::Rare
}

/// Whether `list` holds one entry per tier, in the order of the tiers.
pub open spec fn medias_in_order(list: Seq<CreatorNFTMedia>) -> bool {
    &&& list.len() == 3
    &&& list[0].rank() == UserNFTRank::Common
    &&& list[1].rank() == UserNFTRank::Uncommon
    &&& list[2].rank() == UserNFTRank::Rare
}

/// Whether `list` holds one entry per tier, in the order of the tiers.
fn check_medias(list: &Vec<CreatorNFTMedia>) -> (ok: bool)
    ensures
        ok == medias_in_order(list@),
{
    list.len() == 3 && list[0].tier() == UserNFTRank::Common && list[1].tier()
        == UserNFTRank::Uncommon && list[2].tier() == UserNFTRank::Rare
}

/// Whether `list` holds one entry per tier, in the order of the tiers.
pub open spec fn copies_in_order(list: Seq<CreatorNFTCopies>) -> bool {
    &&& list.len() == 3
    &&& list[0].rank() == UserNFTRank::Common
    &&& list[1].rank() == UserNFTRank::Uncommon
    &&& list[2].rank() == UserNFTRank::Rare
}

/// Whether `list` holds one entry per tier, in the order of the tiers.
fn check_copies(list: &Vec<CreatorNFTCopies>) -> (ok: bool)
    ensures
        ok == copies_in_order(list@),
{
    list.len() == 3 && list[0].tier() == UserNFTRank::Common && list[1].tier()
        == UserNFTRank::Uncommon && list[2].tier() == UserNFTRank::Rare
}

/// Whether `list` holds one entry per tier, in the order of the tiers.
pub open spec fn extras_in_order(list: Seq<CreatorNFTExtra>) -> bool {
    &&& list.len() == 3
    &&& list[0].rank() == UserNFTRank::Common
    &&& list[1].rank() == UserNFTRank::Uncommon
    &&& list[2].rank() == UserNFTRank::Rare
}

/// Whether `list` holds one entry per tier, in the order of the tiers.
fn check_extras(list: &Vec<CreatorNFTExtra>) -> (ok: bool)
    ensures
        ok == extras_in_order(list@),
{
    list.len() == 3 && list[0].tier() == UserNFTRank::Common && list[1].tier()
        == UserNFTRank::Uncommon && list[2].tier() == UserNFTRank::Rare
}

/// Whether `list` holds one entry per tier, in the order of the tiers.
pub open spec fn references_in_order(list: Seq<CreatorNFTReference>) -> bool {
    &&& list.len() == 3
    &&& list[0].rank() == UserNFTRank::Common
    &&& list[1].rank() == UserNFTRank::Uncommon
    &&& list[2].rank() == UserNFTRank::Rare
}

/// Whether `list` holds one entry per tier, in the order of the tiers.
fn check_references(list: &Vec<CreatorNFTReference>) -> (ok: bool)
    ensures
        ok == references_in_order(list@),
{
    list.len() == 3 && list[0].tier() == UserNFTRank::Common && list[1].tier()
        == UserNFTRank::Uncommon && list[2].tier() == UserNFTRank::Rare
}

impl CreatorMetadata {
    #[verifier::type_invariant]
    spec fn one_entry_per_tier(&self) -> bool {
        &&& rankings_in_order(self.nft_ranks@)
        &&& titles_in_order(self.titles@)
        &&& descriptions_in_order(self.descriptions@)
        &&& medias_in_order(self.medias@)
        &&& copies_in_order(self.copies@)
        &&& extras_in_order(self.extras@)
        &&& references_in_order(self.references@)
    }

    /// The price tables, one per tier.
    pub closed spec fn rankings(&self) -> Seq<CreatorNFTRanking> {
        self.nft_ranks@
    }

    /// The titles, one per tier.
    pub closed spec fn titles(&self) -> Seq<CreatorNFTTitle> {
        self.titles@
    }

    /// The descriptions, one per tier.
    pub closed spec fn descriptions(&self) -> Seq<CreatorNFTDescription> {
        self.descriptions@
    }

    /// The media locations, one per tier.
    pub closed spec fn medias(&self) -> Seq<CreatorNFTMedia> {
        self.medias@
    }

    /// The numbers of copies, one per tier.
    pub closed spec fn copies(&self) -> Seq<CreatorNFTCopies> {
        self.copies@
    }

    /// The extra data, one per tier.
    pub closed spec fn extras(&self) -> Seq<CreatorNFTExtra> {
        self.extras@
    }

    /// The links, one per tier.
    pub closed spec fn references(&self) -> Seq<CreatorNFTReference> {
        self.references@
    }

    /// The prices that this registration asks for a reward of tier `rank`.
    pub open spec fn price_table(&self, rank: UserNFTRank) -> Map<Seq<char>, u128> {
        self.rankings()[rank.index()].prices()
    }

    /// Puts a registration together. The lists are accepted where each
    /// holds one entry per tier, in the order of the tiers, and not otherwise.
    pub fn new(
        nft_ranks: Vec<CreatorNFTRanking>,
        titles: Vec<CreatorNFTTitle>,
        descriptions: Vec<CreatorNFTDescription>,
        medias: Vec<CreatorNFTMedia>,
        copies: Vec<CreatorNFTCopies>,
        extras: Vec<CreatorNFTExtra>,
        references: Vec<CreatorNFTReference>,
    ) -> (metadata: Option<CreatorMetadata>)
        ensures
            metadata.is_some() <==> {
                &&& rankings_in_order(nft_ranks@)
                &&& titles_in_order(titles@)
                &&& descriptions_in_order(descriptions@)
                &&& medias_in_order(medias@)
                &&& copies_in_order(copies@)
                &&& extras_in_order(extras@)
                &&& references_in_order(references@)
            },
            metadata.is_some() ==> {
                &&& metadata.unwrap().rankings() == nft_ranks@
                &&& metadata.unwrap().titles() == titles@
                &&& metadata.unwrap().descriptions() == descriptions@
                &&& metadata.unwrap().medias() == medias@
                &&& metadata.unwrap().copies() == copies@
                &&& metadata.unwrap().extras() == extras@
                &&& metadata.unwrap().references() == references@
            },
    {
        if check_rankings(&nft_ranks)
            && check_titles(&titles)
            && check_descriptions(&descriptions)
            && check_medias(&medias)
            && check_copies(&copies)
            && check_extras(&extras)
            && check_references(&references) {
            Some(CreatorMetadata { nft_ranks, titles, descriptions, medias, copies, extras, references })
        } else {
            None
        }
    }

    /// The price table of the tier `user_nft_rank`.
    pub fn nft_rank(&self, user_nft_rank: UserNFTRank) -> (ranking: CreatorNFTRanking)
        ensures
            ranking.rank() == user_nft_rank,
            ranking.prices() == self.price_table(user_nft_rank),
    {
        proof {
            use_type_invariant(self);
        }
        match user_nft_rank {
            UserNFTRank::Common => self.nft_ranks[0].clone(),
            UserNFTRank::Uncommon => self.nft_ranks[1].clone(),
            UserNFTRank::Rare => self.nft_ranks[2].clone(),
        }
    }

    /// The amount that a pledge for the tier `rank` must bring in the
    /// token `ft_token_id`; an error where the tier does not accept the token.
    pub fn required_amount(&self, rank: UserNFTRank, ft_token_id: &FTAccountId) -> (res: Result<
        u128,
        MetaDaoError,
    >)
        ensures
            res == required_amount(self.price_table(rank), ft_token_id@),
    {
        proof {
            use_type_invariant(self);
        }
        self.nft_ranks[rank.position()].get_amount_from_nft_rank(ft_token_id)
    }

    /// A copy of the price tables, one per tier.
    pub fn get_nft_ranks(&self) -> (list: Vec<CreatorNFTRanking>)
        ensures
            list@.len() == 3,
            forall|i: int|
                0 <= i < 3 ==> (#[trigger] list@[i]).rank() == self.rankings()[i].rank()
                    && list@[i].prices() == self.rankings()[i].prices(),
    {
        proof {
            use_type_invariant(self);
        }
        let mut list: Vec<CreatorNFTRanking> = Vec::new();
        list.push(self.nft_ranks[0].clone());
        list.push(self.nft_ranks[1].clone());
        list.push(self.nft_ranks[2].clone());
        list
    }

    /// A copy of the titles, one per tier.
    pub fn get_titles(&self) -> (list: Vec<CreatorNFTTitle>)
        ensures
            list@ == self.titles(),
            titles_in_order(list@),
    {
        proof {
            use_type_invariant(self);
        }
        let mut list: Vec<CreatorNFTTitle> = Vec::new();
        list.push(self.titles[0].clone());
        list.push(self.titles[1].clone());
        list.push(self.titles[2].clone());
        assert(list@ =~= self.titles@);
        list
    }

    /// A copy of the descriptions, one per tier.
    pub fn get_descriptions(&self) -> (list: Vec<CreatorNFTDescription>)
        ensures
            list@ == self.descriptions(),
            descriptions_in_order(list@),
    {
        proof {
            use_type_invariant(self);
        }
        let mut list: Vec<CreatorNFTDescription> = Vec::new();
        list.push(self.descriptions[0].clone());
        list.push(self.descriptions[1].clone());
        list.push(self.descriptions[2].clone());
        assert(list@ =~= self.descriptions@);
        list
    }

    /// A copy of the media locations, one per tier.
    pub fn get_medias(&self) -> (list: Vec<CreatorNFTMedia>)
        ensures
            list@ == self.medias(),
            medias_in_order(list@),
    {
        proof {
            use_type_invariant(self);
        }
        let mut list: Vec<CreatorNFTMedia> = Vec::new();
        list.push(self.medias[0].clone());
        list.push(self.medias[1].clone());
        list.push(self.medias[2].clone());
        assert(list@ =~= self.medias@);
        list
    }

    /// A copy of the numbers of copies, one per tier.
    pub fn get_copies(&self) -> (list: Vec<CreatorNFTCopies>)
        ensures
            list@ == self.copies(),
            copies_in_order(list@),
    {
        proof {
            use_type_invariant(self);
        }
        let mut list: Vec<CreatorNFTCopies> = Vec::new();
        list.push(self.copies[0].clone());
        list.push(self.copies[1].clone());
        list.push(self.copies[2].clone());
        assert(list@ =~= self.copies@);
        list
    }

    /// A copy of the extra data, one per tier.
    pub fn get_extras(&self) -> (list: Vec<CreatorNFTExtra>)
        ensures
            list@ == self.extras(),
            extras_in_order(list@),
    {
        proof {
            use_type_invariant(self);
        }
        let mut list: Vec<CreatorNFTExtra> = Vec::new();
        list.push(self.extras[0].clone());
        list.push(self.extras[1].clone());
        list.push(self.extras[2].clone());
        assert(list@ =~= self.extras@);
        list
    }

    /// A copy of the links, one per tier.
    pub fn get_references(&self) -> (list: Vec<CreatorNFTReference>)
        ensures
            list@ == self.references(),
            references_in_order(list@),
    {
        proof {
            use_type_invariant(self);
        }
        let mut list: Vec<CreatorNFTReference> = Vec::new();
        list.push(self.references[0].clone());
        list.push(self.references[1].clone());
        list.push(self.references[2].clone());
        assert(list@ =~= self.references@);
        list
    }
}

impl Clone for CreatorMetadata {
    fn clone(&self) -> (res: Self)
        ensures
            forall|i: int|
                0 <= i < 3 ==> (#[trigger] res.rankings()[i]).rank() == self.rankings()[i].rank()
                    && res.rankings()[i].prices() == self.rankings()[i].prices(),
            res.titles() == self.titles(),
            res.descriptions() == self.descriptions(),
            res.medias() == self.medias(),
            res.copies() == self.copies(),
            res.extras() == self.extras(),
            res.references() == self.references(),
    {
        proof {
            use_type_invariant(self);
        }
        CreatorMetadata {
            nft_ranks: self.get_nft_ranks(),
            titles: self.get_titles(),
            descriptions: self.get_descriptions(),
            medias: self.get_medias(),
            copies: self.get_copies(),
            extras: self.get_extras(),
            references: self.get_references(),
        }
    }
}

impl MetaDaoContract {
    /// Registers `creator` with `metadata` for the open epoch: an empty list
    /// of receipts, the registration itself and a place among the epoch's
    /// creators. Refused unless the deposit covers the storage and
    /// registration runs. A creator that registers again replaces what it
    /// registered before.
    pub fn creator_registration(
        &mut self,
        creator: &CreatorAccountId,
        attached_deposit: u128,
        metadata: CreatorMetadata,
    ) -> (res: Result<(), MetaDaoError>)
        ensures
            carried_out(
                old(self)@.creator_registration(creator@, attached_deposit, metadata),
                *old(self),
                *final(self),
                res,
            ),
    {
        if attached_deposit < creator_registry_deposit() {
            return Err(MetaDaoError::UncoveredStorageCosts);
        }
        if !self.is_epoch_on {
            return Err(MetaDaoError::EpochIsOff);
        }
        if !self.in_registration {
            return Err(MetaDaoError::NotInRegistrationPeriod);
        }
        let epoch = self.epoch;
        if !self.creator_funding.contains_key(&epoch) || !self.creators_metadata.contains_key(&epoch)
            || !self.creators_per_epoch_set.contains_key(&epoch) {
            return Err(MetaDaoError::EpochIsOff);
        }
        let ghost funding_before = self.creator_funding@[epoch];
        let mut creator_funding = self.creator_funding.remove(&epoch).unwrap();
        let receipts: Vec<ObtainedTokenAmounts> = Vec::new();
        creator_funding.insert(creator.clone(), receipts);
        proof {
            lemma_obtained_accounts_insert(funding_before, creator_funding, creator@, receipts);
            lemma_creator_ledger_insert(old(self).creator_funding@, epoch, creator_funding);
            assert(obtained_rows(receipts@) =~= Seq::empty());
        }
        self.creator_funding.insert(epoch, creator_funding);

        let mut creators_metadata = self.creators_metadata.remove(&epoch).unwrap();
        creators_metadata.insert(creator.clone(), metadata);
        proof {
            lemma_registrations_insert(old(self).creators_metadata@, epoch, creators_metadata);
        }
        self.creators_metadata.insert(epoch, creators_metadata);

        let mut creators_per_epoch = self.creators_per_epoch_set.remove(&epoch).unwrap();
        creators_per_epoch.insert(creator);
        proof {
            lemma_account_sets_insert(old(self).creators_per_epoch_set@, epoch, creators_per_epoch);
        }
        self.creators_per_epoch_set.insert(epoch, creators_per_epoch);
        Ok(())
    }
}

} // verus!
