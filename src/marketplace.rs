//! The record store and the marketplace's operations on it. Each operation
//! loads the records it needs, runs its handler on them, and writes them back
//! only if the handler succeeded: an operation applies whole or not at all.
use vstd::hash_map::HashMapWithView;
use vstd::prelude::*;

use crate::access::PurchaseAccess;
use crate::catalog::{InitResearch, UpdateResearch};
use crate::errors::ErrorCodes;
use crate::identity::{new_user, InitUser};
use crate::ledger::{balance_of, Ledger};
use crate::review::{ReviewPaper, VerifyReview};
use crate::states::{AccessReceipt, Identity, PeerReview, ResearchPaper, User};
use crate::withdraw::{AdminWithdraw, UserWithdraw};

verus! {

broadcast use vstd::std_specs::hash::group_hash_axioms;

/// The store key of a (participant, listing author) pair.
pub open spec fn pair_key(a: Identity, b: Identity) -> u128 {
    ((a as u128) << 64u128) | (b as u128)
}

fn key_of(a: Identity, b: Identity) -> (r: u128)
    ensures
        r == pair_key(a, b),
{
    ((a as u128) << 64u128) | (b as u128)
}

proof fn lemma_pair_key_injective(a: Identity, b: Identity, c: Identity, d: Identity)
    ensures
        pair_key(a, b) == pair_key(c, d) ==> a == c && b == d,
{
    assert(((a as u128) << 64u128) | (b as u128) == ((c as u128) << 64u128) | (d as u128) ==> a
        == c && b == d) by (bit_vector);
}

/// A map keyed by store keys, seen as keyed by pairs.
pub open spec fn pair_view<V>(m: Map<u128, V>) -> Map<(Identity, Identity), V> {
    Map::new(
        |k: (Identity, Identity)| m.contains_key(pair_key(k.0, k.1)),
        |k: (Identity, Identity)| m[pair_key(k.0, k.1)],
    )
}

proof fn lemma_pair_view_insert<V>(m: Map<u128, V>, a: Identity, b: Identity, v: V)
    ensures
        pair_view(m.insert(pair_key(a, b), v)) == pair_view(m).insert((a, b), v),
{
    assert forall|k: (Identity, Identity)| #[trigger]
        pair_view(m.insert(pair_key(a, b), v)).contains_key(k) == pair_view(m).insert(
            (a, b),
            v,
        ).contains_key(k) by {
        lemma_pair_key_injective(k.0, k.1, a, b);
    }
    assert forall|k: (Identity, Identity)| #[trigger]
        pair_view(m.insert(pair_key(a, b), v)).contains_key(k) implies pair_view(
        m.insert(pair_key(a, b), v),
    )[k] == pair_view(m).insert((a, b), v)[k] by {
        lemma_pair_key_injective(k.0, k.1, a, b);
    }
    assert(pair_view(m.insert(pair_key(a, b), v)) =~= pair_view(m).insert((a, b), v));
}

/// All records and balances of the marketplace.
pub struct Marketplace {
    users: HashMapWithView<Identity, User>,
    papers: HashMapWithView<Identity, ResearchPaper>,
    receipts: HashMapWithView<u128, AccessReceipt>,
    reviews: HashMapWithView<u128, PeerReview>,
    wallets: HashMapWithView<Identity, u64>,
    vaults: HashMapWithView<Identity, u64>,
    admin_vault: u64,
    admins: Vec<Identity>,
}

impl View for Marketplace {
    type V = Ledger;

    closed spec fn view(&self) -> Ledger {
        Ledger {
            users: self.users@,
            papers: self.papers@,
            receipts: pair_view(self.receipts@),
            reviews: pair_view(self.reviews@),
            wallets: self.wallets@,
            vaults: self.vaults@,
            admin_vault: self.admin_vault,
            admins: self.admins@,
        }
    }
}

impl Marketplace {
    /// The store's invariant.
    pub open spec fn wf(&self) -> bool {
        self@.well_formed()
    }

    /// An empty marketplace with the given administrators.
    pub fn new(admins: Vec<Identity>) -> (r: Marketplace)
        ensures
            r.wf(),
            r@.users.is_empty(),
            r@.papers.is_empty(),
            r@.receipts.is_empty(),
            r@.reviews.is_empty(),
            r@.wallets.is_empty(),
            r@.vaults.is_empty(),
            r@.admin_vault == 0,
            r@.admins == admins@,
    {
        let r = Marketplace {
            users: HashMapWithView::new(),
            papers: HashMapWithView::new(),
            receipts: HashMapWithView::new(),
            reviews: HashMapWithView::new(),
            wallets: HashMapWithView::new(),
            vaults: HashMapWithView::new(),
            admin_vault: 0,
            admins,
        };
        assert(r@.receipts =~= Map::empty());
        assert(r@.reviews =~= Map::empty());
        r
    }

    /// The identity record of `who`, if registered.
    pub fn user(&self, who: Identity) -> (r: Option<User>)
        ensures
            r == (if self@.users.contains_key(who) {
                Some(self@.users[who])
            } else {
                None
            }),
    {
        match self.users.get(&who) {
            Some(u) => Some(u.clone()),
            None => None,
        }
    }

    /// The listing of author `author`, if published.
    pub fn paper(&self, author: Identity) -> (r: Option<ResearchPaper>)
        ensures
            r == (if self@.papers.contains_key(author) {
                Some(self@.papers[author])
            } else {
                None
            }),
    {
        match self.papers.get(&author) {
            Some(p) => Some(p.clone()),
            None => None,
        }
    }

    /// The receipt of `buyer` for the listing of `paper`, if purchased.
    pub fn receipt(&self, buyer: Identity, paper: Identity) -> (r: Option<AccessReceipt>)
        ensures
            r == (if self@.receipts.contains_key((buyer, paper)) {
                Some(self@.receipts[(buyer, paper)])
            } else {
                None
            }),
    {
        match self.receipts.get(&key_of(buyer, paper)) {
            Some(rec) => Some(*rec),
            None => None,
        }
    }

    /// The review of the listing of `paper` submitted by the given participant, if any.
    pub fn review(&self, reviewer: Identity, paper: Identity) -> (r: Option<PeerReview>)
        ensures
            r == (if self@.reviews.contains_key((reviewer, paper)) {
                Some(self@.reviews[(reviewer, paper)])
            } else {
                None
            }),
    {
        match self.reviews.get(&key_of(reviewer, paper)) {
            Some(rev) => Some(rev.clone()),
            None => None,
        }
    }

    /// The external wallet balance of `who`.
    pub fn wallet_balance(&self, who: Identity) -> (r: u64)
        ensures
            r == balance_of(self@.wallets, who),
    {
        match self.wallets.get(&who) {
            Some(b) => *b,
            None => 0,
        }
    }

    /// The personal vault balance of `who`.
    pub fn vault_balance(&self, who: Identity) -> (r: u64)
        ensures
            r == balance_of(self@.vaults, who),
    {
        match self.vaults.get(&who) {
            Some(b) => *b,
            None => 0,
        }
    }

    /// The platform vault balance.
    pub fn platform_balance(&self) -> (r: u64)
        ensures
            r == self@.admin_vault,
    {
        self.admin_vault
    }

    /// Credits `amount` to the external wallet of `who`, as the host does
    /// when funds arrive from outside the marketplace; fails with
    /// `MathOverflow` when the balance would exceed 64 bits.
    pub fn fund_wallet(&mut self, who: Identity, amount: u64) -> (r: Result<(), ErrorCodes>)
        requires
            old(self).wf(),
        ensures
            final(self).wf(),
            r is Err <==> balance_of(old(self)@.wallets, who) + amount > u64::MAX,
            r is Err ==> r == Err::<(), ErrorCodes>(ErrorCodes::MathOverflow) && final(self)@ == old(self)@,
            r is Ok ==> final(self)@ == (Ledger {
                wallets: old(self)@.wallets.insert(
                    who,
                    (balance_of(old(self)@.wallets, who) + amount) as u64,
                ),
                ..old(self)@
            }),
    {
        let funded = match self.wallet_balance(who).checked_add(amount) {
            Some(v) => v,
            None => {
                return Err(ErrorCodes::MathOverflow);
            },
        };
        self.wallets.insert(who, funded);
        Ok(())
    }
}

/// Registers the caller under `name`. Fails with `UserAlreadyRegistered` when
/// the caller already has a record, then with `UserNameInvalid` when the name
/// is empty or longer than its bound.
pub fn init_user(market: &mut Marketplace, caller: Identity, name: String, now: i64) -> (r: Result<
    (),
    ErrorCodes,
>)
    requires
        old(market).wf(),
    ensures
        final(market).wf(),
        r == old(market)@.init_user_outcome(caller, name@),
        r is Ok ==> final(market)@ == old(market)@.after_init_user(caller, name, now),
        r is Err ==> final(market)@ == old(market)@,
{
    if market.users.contains_key(&caller) {
        return Err(ErrorCodes::UserAlreadyRegistered);
    }
    let mut ctx = InitUser { owner: caller, user_account: None };
    match ctx.initiate_user(name, now) {
        Ok(()) => {},
        Err(e) => {
            return Err(e);
        },
    }
    match ctx.user_account {
        Some(user) => {
            market.users.insert(caller, user);
        },
        None => {},
    }
    assert(market@.users == old(market)@.users.insert(caller, new_user(caller, name, now)));
    assert(market@.papers == old(market)@.papers);
    assert(market@.receipts == old(market)@.receipts);
    assert(market@.reviews == old(market)@.reviews);
    Ok(())
}

/// Buys the caller access to the listing of `paper`. Fails with
/// `PaperNotFound`, `UserNotRegistered` or `AlreadyPurchased` when the
/// listing, the buyer's record or an earlier receipt says so, and otherwise
/// as `PurchaseAccess::purchase_access` decides.
pub fn purchase_access(market: &mut Marketplace, buyer: Identity, paper: Identity, now: i64) -> (r:
    Result<(), ErrorCodes>)
    requires
        old(market).wf(),
    ensures
        final(market).wf(),
        r == old(market)@.purchase_outcome(buyer, paper),
        r is Ok ==> final(market)@ == old(market)@.after_purchase(buyer, paper, now),
        r is Err ==> final(market)@ == old(market)@,
{
    let research_paper = match market.papers.get(&paper) {
        Some(p) => p.clone(),
        None => {
            return Err(ErrorCodes::PaperNotFound);
        },
    };
    let buyer_user_account = match market.users.get(&buyer) {
        Some(u) => u.clone(),
        None => {
            return Err(ErrorCodes::UserNotRegistered);
        },
    };
    let key = key_of(buyer, paper);
    if market.receipts.contains_key(&key) {
        return Err(ErrorCodes::AlreadyPurchased);
    }
    let author_user_account = match market.users.get(&paper) {
        Some(u) => u.clone(),
        None => {
            return Err(ErrorCodes::UserNotRegistered);
        },
    };
    let mut ctx = PurchaseAccess {
        buyer,
        buyer_wallet: market.wallet_balance(buyer),
        research_paper,
        buyer_user_account,
        author_user_account,
        author_vault: market.vault_balance(paper),
        admin_vault: market.admin_vault,
        access_receipt: None,
    };
    match ctx.purchase_access(now) {
        Ok(()) => {},
        Err(e) => {
            return Err(e);
        },
    }
    proof {
        lemma_pair_view_insert(
            market.receipts@,
            buyer,
            paper,
            AccessReceipt { buyer, purchased_paper: paper, timestamp: now },
        );
    }
    market.wallets.insert(buyer, ctx.buyer_wallet);
    market.vaults.insert(paper, ctx.author_vault);
    market.admin_vault = ctx.admin_vault;
    market.users.insert(buyer, ctx.buyer_user_account);
    market.users.insert(paper, ctx.author_user_account);
    market.papers.insert(paper, ctx.research_paper);
    match ctx.access_receipt {
        Some(rec) => {
            market.receipts.insert(key, rec);
        },
        None => {},
    }
    Ok(())
}

/// Publishes the caller's listing. Fails with `PaperAlreadyPublished` when
/// the caller already has one, with `UserNotRegistered` when the caller has no
/// record, and otherwise as `InitResearch::initiate_research` decides.
pub fn init_research(
    market: &mut Marketplace,
    caller: Identity,
    title: String,
    description: String,
    price: u64,
    encrypted_url: String,
    encryption_key: String,
    now: i64,
) -> (r: Result<(), ErrorCodes>)
    requires
        old(market).wf(),
    ensures
        final(market).wf(),
        r == old(market)@.init_research_outcome(
            caller,
            title@,
            description@,
            price,
            encrypted_url@,
            encryption_key@,
        ),
        r is Ok ==> final(market)@ == old(market)@.after_init_research(
            caller,
            title,
            description,
            price,
            encrypted_url,
            encryption_key,
            now,
        ),
        r is Err ==> final(market)@ == old(market)@,
{
    if market.papers.contains_key(&caller) {
        return Err(ErrorCodes::PaperAlreadyPublished);
    }
    let user_account = match market.users.get(&caller) {
        Some(u) => u.clone(),
        None => {
            return Err(ErrorCodes::UserNotRegistered);
        },
    };
    let mut ctx = InitResearch { author: caller, user_account, research_paper: None };
    match ctx.initiate_research(title, description, price, encrypted_url, encryption_key, now) {
        Ok(()) => {},
        Err(e) => {
            return Err(e);
        },
    }
    market.users.insert(caller, ctx.user_account);
    match ctx.research_paper {
        Some(p) => {
            market.papers.insert(caller, p);
        },
        None => {},
    }
    assert(market@.receipts == old(market)@.receipts);
    assert(market@.reviews == old(market)@.reviews);
    Ok(())
}

/// Rewrites the listing of `paper`. Fails with `PaperNotFound` when there is
/// none, and otherwise as `UpdateResearch::update_research` decides.
pub fn update_research(
    market: &mut Marketplace,
    caller: Identity,
    paper: Identity,
    title: String,
    description: String,
    price: u64,
    encrypted_url: String,
    encryption_key: String,
) -> (r: Result<(), ErrorCodes>)
    requires
        old(market).wf(),
    ensures
        final(market).wf(),
        r == old(market)@.update_research_outcome(
            caller,
            paper,
            title@,
            description@,
            price,
            encrypted_url@,
            encryption_key@,
        ),
        r is Ok ==> final(market)@ == old(market)@.after_update_research(
            paper,
            title,
            description,
            price,
            encrypted_url,
            encryption_key,
        ),
        r is Err ==> final(market)@ == old(market)@,
{
    let research_paper = match market.papers.get(&paper) {
        Some(p) => p.clone(),
        None => {
            return Err(ErrorCodes::PaperNotFound);
        },
    };
    let mut ctx = UpdateResearch { author: caller, research_paper };
    match ctx.update_research(title, description, price, encrypted_url, encryption_key) {
        Ok(()) => {},
        Err(e) => {
            return Err(e);
        },
    }
    market.papers.insert(paper, ctx.research_paper);
    assert(market@.receipts == old(market)@.receipts);
    assert(market@.reviews == old(market)@.reviews);
    Ok(())
}

/// Submits the caller's review of the listing of `paper`. Fails with
/// `PaperNotPurchased` when the caller holds no receipt for it, whatever the
/// other inputs, with `AlreadyReviewed` when the caller reviewed it before,
/// and otherwise as `ReviewPaper::review_paper` decides.
pub fn review_paper(
    market: &mut Marketplace,
    reviewer: Identity,
    paper: Identity,
    review_url: String,
    proposed_reward: u64,
    now: i64,
) -> (r: Result<(), ErrorCodes>)
    requires
        old(market).wf(),
    ensures
        final(market).wf(),
        r == old(market)@.review_outcome(reviewer, paper, review_url@),
        r is Ok ==> final(market)@ == old(market)@.after_review(
            reviewer,
            paper,
            review_url,
            proposed_reward,
            now,
        ),
        r is Err ==> final(market)@ == old(market)@,
{
    let key = key_of(reviewer, paper);
    let access_receipt = match market.receipts.get(&key) {
        Some(rec) => *rec,
        None => {
            return Err(ErrorCodes::PaperNotPurchased);
        },
    };
    if market.reviews.contains_key(&key) {
        return Err(ErrorCodes::AlreadyReviewed);
    }
    let research_paper = match market.papers.get(&paper) {
        Some(p) => p.clone(),
        None => {
            return Err(ErrorCodes::PaperNotFound);
        },
    };
    let reviewer_user_account = match market.users.get(&reviewer) {
        Some(u) => u.clone(),
        None => {
            return Err(ErrorCodes::UserNotRegistered);
        },
    };
    let mut ctx = ReviewPaper {
        reviewer,
        research_paper,
        access_receipt,
        reviewer_user_account,
        peer_review: None,
    };
    match ctx.review_paper(review_url, proposed_reward, now) {
        Ok(()) => {},
        Err(e) => {
            return Err(e);
        },
    }
    market.users.insert(reviewer, ctx.reviewer_user_account);
    market.papers.insert(paper, ctx.research_paper);
    match ctx.peer_review {
        Some(rev) => {
            proof {
                lemma_pair_view_insert(old(market).reviews@, reviewer, paper, rev);
            }
            market.reviews.insert(key, rev);
        },
        None => {},
    }
    assert(market@.receipts == old(market)@.receipts);
    Ok(())
}

/// The caller, as author of the listing of `paper`, accepts or rejects the
/// review of it that the given participant submitted. Fails with
/// `ReviewNotFound` when there is no such review, and otherwise as
/// `VerifyReview::verify_review` decides.
pub fn verify_review(
    market: &mut Marketplace,
    caller: Identity,
    reviewer: Identity,
    paper: Identity,
    accept_proposed_review: bool,
) -> (r: Result<(), ErrorCodes>)
    requires
        old(market).wf(),
    ensures
        final(market).wf(),
        r == old(market)@.verify_outcome(caller, reviewer, paper, accept_proposed_review),
        r is Ok ==> final(market)@ == old(market)@.after_verify(
            caller,
            reviewer,
            paper,
            accept_proposed_review,
        ),
        r is Err ==> final(market)@ == old(market)@,
{
    let key = key_of(reviewer, paper);
    let peer_review = match market.reviews.get(&key) {
        Some(rev) => rev.clone(),
        None => {
            return Err(ErrorCodes::ReviewNotFound);
        },
    };
    let research_paper = match market.papers.get(&paper) {
        Some(p) => p.clone(),
        None => {
            return Err(ErrorCodes::PaperNotFound);
        },
    };
    let reviewer_user_account = match market.users.get(&reviewer) {
        Some(u) => u.clone(),
        None => {
            return Err(ErrorCodes::UserNotRegistered);
        },
    };
    let mut ctx = VerifyReview {
        author: caller,
        author_wallet: market.wallet_balance(caller),
        peer_review,
        research_paper,
        reviewer_user_account,
        reviewer_vault: market.vault_balance(reviewer),
        admin_vault: market.admin_vault,
    };
    match ctx.verify_review(accept_proposed_review) {
        Ok(()) => {},
        Err(e) => {
            return Err(e);
        },
    }
    if accept_proposed_review {
        market.wallets.insert(caller, ctx.author_wallet);
        market.vaults.insert(reviewer, ctx.reviewer_vault);
        market.admin_vault = ctx.admin_vault;
        market.users.insert(reviewer, ctx.reviewer_user_account);
    }
    proof {
        lemma_pair_view_insert(old(market).reviews@, reviewer, paper, ctx.peer_review);
    }
    market.reviews.insert(key, ctx.peer_review);
    assert(market@.receipts == old(market)@.receipts);
    Ok(())
}

/// Moves `amount` from the caller's vault to the caller's wallet. Fails
/// with `InsufficientFundsInVault` when the vault holds less than `amount`.
pub fn user_withdraw(market: &mut Marketplace, caller: Identity, amount: u64) -> (r: Result<
    (),
    ErrorCodes,
>)
    requires
        old(market).wf(),
    ensures
        final(market).wf(),
        r == old(market)@.user_withdraw_outcome(caller, amount),
        r is Ok ==> final(market)@ == old(market)@.after_user_withdraw(caller, amount),
        r is Err ==> final(market)@ == old(market)@,
{
    let mut ctx = UserWithdraw {
        user: caller,
        user_wallet: market.wallet_balance(caller),
        user_vault: market.vault_balance(caller),
    };
    match ctx.user_withdraw(amount) {
        Ok(()) => {},
        Err(e) => {
            return Err(e);
        },
    }
    market.vaults.insert(caller, ctx.user_vault);
    market.wallets.insert(caller, ctx.user_wallet);
    assert(market@.users == old(market)@.users);
    assert(market@.papers == old(market)@.papers);
    assert(market@.receipts == old(market)@.receipts);
    assert(market@.reviews == old(market)@.reviews);
    Ok(())
}

/// Moves `amount` from the platform vault to the caller's wallet. Fails with
/// `InsufficientFundsInVault` when the platform vault holds less, then with
/// `UnauthorizedAdmin` when the caller is not an administrator.
pub fn admin_withdraw(market: &mut Marketplace, caller: Identity, amount: u64) -> (r: Result<
    (),
    ErrorCodes,
>)
    requires
        old(market).wf(),
    ensures
        final(market).wf(),
        r == old(market)@.admin_withdraw_outcome(caller, amount),
        r is Ok ==> final(market)@ == old(market)@.after_admin_withdraw(caller, amount),
        r is Err ==> final(market)@ == old(market)@,
{
    let mut ctx = AdminWithdraw {
        admin: caller,
        admin_wallet: market.wallet_balance(caller),
        admin_vault: market.admin_vault,
        admins: Vec::new(),
    };
    std::mem::swap(&mut ctx.admins, &mut market.admins);
    let r = ctx.admin_withdraw(amount);
    std::mem::swap(&mut ctx.admins, &mut market.admins);
    match r {
        Ok(()) => {},
        Err(e) => {
            return Err(e);
        },
    }
    market.admin_vault = ctx.admin_vault;
    market.wallets.insert(caller, ctx.admin_wallet);
    assert(market@.users == old(market)@.users);
    assert(market@.papers == old(market)@.papers);
    assert(market@.receipts == old(market)@.receipts);
    assert(market@.reviews == old(market)@.reviews);
    Ok(())
}

} // verus!
