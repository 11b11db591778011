//! The two sides of the pledge ledger: what each supporter spent and what
//! each creator obtained.

use vstd::prelude::*;
use super::account::{CreatorAccountId, FTAccountId, UserAccountId};
use super::nft::UserNFTRank;

verus! {

/// One pledge as the supporter's side records it.
#[derive(Debug, PartialEq)]
pub struct FundedTokenAmount {
    pub creator_id: CreatorAccountId,
    pub ft_token_id: FTAccountId,
    pub amount: u128,
}

/// One pledge as the creator's side records it. `already_funded` says
/// whether the amount was forwarded to the creator.
#[derive(Debug, PartialEq)]
pub struct ObtainedTokenAmounts {
    pub user_id: UserAccountId,
    pub ft_token_id: FTAccountId,
    pub amount: u128,
    pub nft_rank: UserNFTRank,
    pub already_funded: bool,
}

/// A supporter-side row as plain data.
pub struct FundedRow {
    pub creator_id: Seq<char>,
    pub ft_token_id: Seq<char>,
    pub amount: u128,
}

/// A creator-side row as plain data.
pub struct ObtainedRow {
    pub user_id: Seq<char>,
    pub ft_token_id: Seq<char>,
    pub amount: u128,
    pub nft_rank: UserNFTRank,
    pub already_funded: bool,
}

impl View for FundedTokenAmount {
    type V = FundedRow;

    open spec fn view(&self) -> FundedRow {
        FundedRow {
            creator_id: self.creator_id@,
            ft_token_id: self.ft_token_id@,
            amount: self.amount,
        }
    }
}

impl View for ObtainedTokenAmounts {
    type V = ObtainedRow;

    open spec fn view(&self) -> ObtainedRow {
        ObtainedRow {
            user_id: self.user_id@,
            ft_token_id: self.ft_token_id@,
            amount: self.amount,
            nft_rank: self.nft_rank,
            already_funded: self.already_funded,
        }
    }
}

impl Clone for FundedTokenAmount {
    fn clone(&self) -> (res: Self)
        ensures
            res == *self,
    {
        FundedTokenAmount {
            creator_id: self.creator_id.clone(),
            ft_token_id: self.ft_token_id.clone(),
            amount: self.amount,
        }
    }
}

impl Clone for ObtainedTokenAmounts {
    fn clone(&self) -> (res: Self)
        ensures
            res == *self,
    {
        ObtainedTokenAmounts {
            user_id: self.user_id.clone(),
            ft_token_id: self.ft_token_id.clone(),
            amount: self.amount,
            nft_rank: self.nft_rank,
            already_funded: self.already_funded,
        }
    }
}

/// The supporter-side rows of a list, as plain data.
pub open spec fn funded_rows(rows: Seq<FundedTokenAmount>) -> Seq<FundedRow> {
    rows.map_values(|r: FundedTokenAmount| r@)
}

/// The creator-side rows of a list, as plain data.
pub open spec fn obtained_rows(rows: Seq<ObtainedTokenAmounts>) -> Seq<ObtainedRow> {
    rows.map_values(|r: ObtainedTokenAmounts| r@)
}

/// Sum of the amounts of all rows.
pub open spec fn total_amount(rows: Seq<ObtainedRow>) -> nat
    decreases rows.len(),
{
    if rows.len() == 0 {
        0
    } else {
        total_amount(rows.drop_last()) + rows.last().amount as nat
    }
}

/// A row after its supporter's transfer was confirmed: marked as forwarded
/// where the supporter is `supporter`, and as it was otherwise.
pub open spec fn settled_row(row: ObtainedRow, supporter: Seq<char>) -> ObtainedRow {
    if row.user_id == supporter {
        ObtainedRow { already_funded: true, ..row }
    } else {
        row
    }
}

/// The rows after the transfer for `supporter` was confirmed.
pub open spec fn settled_rows(rows: Seq<ObtainedRow>, supporter: Seq<char>) -> Seq<ObtainedRow> {
    rows.map_values(|r: ObtainedRow| settled_row(r, supporter))
}

/// Whether some row is marked as forwarded.
pub open spec fn some_row_settled(rows: Seq<ObtainedRow>) -> bool {
    exists|i: int| 0 <= i < rows.len() && #[trigger] rows[i].already_funded
}

/// One more row raises the total by the row's amount.
pub proof fn lemma_total_push(rows: Seq<ObtainedRow>, row: ObtainedRow)
    ensures
        total_amount(rows.push(row)) == total_amount(rows) + row.amount,
{
    assert(rows.push(row).drop_last() =~= rows);
}

/// Marking rows as forwarded leaves the total as it is.
pub proof fn lemma_total_settled(rows: Seq<ObtainedRow>, supporter: Seq<char>)
    ensures
        total_amount(settled_rows(rows, supporter)) == total_amount(rows),
    decreases rows.len(),
{
    if rows.len() > 0 {
        lemma_total_settled(rows.drop_last(), supporter);
        assert(settled_rows(rows, supporter).drop_last() =~= settled_rows(
            rows.drop_last(),
            supporter,
        ));
    }
}

/// Sum of the amounts of `rows`, or `None` where the sum does not fit.
pub fn checked_total(rows: &Vec<ObtainedTokenAmounts>) -> (total: Option<u128>)
    ensures
        total_amount(obtained_rows(rows@)) <= u128::MAX ==> total == Some(
            total_amount(obtained_rows(rows@)) as u128,
        ),
        total_amount(obtained_rows(rows@)) > u128::MAX ==> total.is_none(),
{
    let ghost all = obtained_rows(rows@);
    let mut sum: u128 = 0;
    let mut i: usize = 0;
    while i < rows.len()
        invariant
            i <= rows.len(),
            all == obtained_rows(rows@),
            sum == total_amount(all.take(i as int)),
        decreases rows.len() - i,
    {
        proof {
            assert(all.take(i + 1) =~= all.take(i as int).push(all[i as int]));
            lemma_total_push(all.take(i as int), all[i as int]);
            lemma_total_grows(all, i + 1);
        }
        match sum.checked_add(rows[i].amount) {
            Some(next) => {
                sum = next;
            },
            None => {
                return None;
            },
        }
        i += 1;
    }
    proof {
        assert(all.take(i as int) =~= all);
    }
    Some(sum)
}

/// The total of a prefix never exceeds the total of the whole list.
pub proof fn lemma_total_grows(rows: Seq<ObtainedRow>, n: int)
    requires
        0 <= n <= rows.len(),
    ensures
        total_amount(rows.take(n)) <= total_amount(rows),
    decreases rows.len() - n,
{
    if n < rows.len() {
        lemma_total_grows(rows, n + 1);
        assert(rows.take(n + 1).drop_last() =~= rows.take(n));
    } else {
        assert(rows.take(n) =~= rows);
    }
}

/// Marks every row of `user_id` as forwarded, and touches nothing else.
pub fn mark_settled(rows: &mut Vec<ObtainedTokenAmounts>, user_id: &UserAccountId)
    ensures
        obtained_rows(final(rows)@) == settled_rows(obtained_rows(old(rows)@), user_id@),
{
    let ghost before = obtained_rows(rows@);
    let mut i: usize = 0;
    while i < rows.len()
        invariant
            i <= rows.len(),
            rows.len() == before.len(),
            forall|j: int| 0 <= j < i ==> #[trigger] rows@[j]@ == settled_row(before[j], user_id@),
            forall|j: int| i <= j < rows.len() ==> #[trigger] rows@[j]@ == before[j],
        decreases rows.len() - i,
    {
        let ghost prev = rows@;
        if rows[i].user_id == *user_id {
            rows[i].already_funded = true;
            assert(rows@[i as int] == (ObtainedTokenAmounts {
                already_funded: true,
                ..prev[i as int]
            }));
            assert(forall|j: int| 0 <= j < rows.len() && j != i ==> rows@[j] == prev[j]);
        }
        assert(prev[i as int]@ == before[i as int]);
        assert(rows@[i as int]@ == settled_row(before[i as int], user_id@));
        i += 1;
    }
    assert(obtained_rows(rows@) =~= settled_rows(before, user_id@));
}

/// Whether some row of the list is marked as forwarded.
pub fn any_settled(rows: &Vec<ObtainedTokenAmounts>) -> (found: bool)
    ensures
        found == some_row_settled(obtained_rows(rows@)),
{
    let mut i: usize = 0;
    while i < rows.len()
        invariant
            i <= rows.len(),
            forall|j: int| 0 <= j < i ==> !(#[trigger] obtained_rows(rows@)[j]).already_funded,
        decreases rows.len() - i,
    {
        if rows[i].already_funded {
            assert(obtained_rows(rows@)[i as int].already_funded);
            return true;
        }
        i += 1;
    }
    false
}

} // verus!
