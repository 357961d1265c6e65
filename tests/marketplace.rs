use prismpapers::errors::ErrorCodes;
use prismpapers::fee::split_payment;
use prismpapers::marketplace::{
    admin_withdraw, init_research, init_user, purchase_access, review_paper, update_research,
    user_withdraw, verify_review, Marketplace,
};
use prismpapers::states::{Identity, ReviewStatus};

const ADMIN: Identity = 900;
const AUTHOR: Identity = 1;
const BUYER: Identity = 2;
const OTHER: Identity = 3;

fn s(text: &str) -> String {
    text.to_string()
}

fn market_with_listing(price: u64) -> Marketplace {
    let mut m = Marketplace::new(vec![ADMIN]);
    init_user(&mut m, AUTHOR, s("alice"), 10).unwrap();
    init_user(&mut m, BUYER, s("bob"), 11).unwrap();
    init_research(
        &mut m,
        AUTHOR,
        s("On Ledgers"),
        s("A study of ledgers"),
        price,
        s("ipfs://cid"),
        s("key-material"),
        12,
    )
    .unwrap();
    m
}

#[test]
fn fee_split_exact_values() {
    assert_eq!(split_payment(1000), Ok((50, 950)));
    assert_eq!(split_payment(200), Ok((10, 190)));
    assert_eq!(split_payment(19), Ok((0, 19)));
    assert_eq!(split_payment(20), Ok((1, 19)));
    assert_eq!(split_payment(0), Ok((0, 0)));
    assert_eq!(split_payment(u64::MAX / 5), Ok(((u64::MAX / 5) * 5 / 100, u64::MAX / 5 - (u64::MAX / 5) * 5 / 100)));
}

#[test]
fn fee_split_sums_to_gross() {
    for g in [1u64, 7, 99, 100, 101, 12345, 1_000_000_007] {
        let (fee, net) = split_payment(g).unwrap();
        assert_eq!(fee + net, g);
        assert_eq!(fee, g * 5 / 100);
    }
}

#[test]
fn fee_split_overflow() {
    assert_eq!(split_payment(u64::MAX), Err(ErrorCodes::MathOverflow));
    assert_eq!(split_payment(u64::MAX / 5 + 1), Err(ErrorCodes::MathOverflow));
}

#[test]
fn register_creates_zeroed_identity() {
    let mut m = Marketplace::new(vec![ADMIN]);
    assert_eq!(init_user(&mut m, AUTHOR, s("alice"), 42), Ok(()));
    let u = m.user(AUTHOR).unwrap();
    assert_eq!(u.owner, AUTHOR);
    assert_eq!(u.name, "alice");
    assert_eq!((u.published, u.purchased, u.sold, u.reviewed, u.earning), (0, 0, 0, 0, 0));
    assert_eq!(u.timestamp, 42);
}

#[test]
fn register_rejects_bad_names_and_duplicates() {
    let mut m = Marketplace::new(vec![ADMIN]);
    assert_eq!(init_user(&mut m, AUTHOR, s(""), 1), Err(ErrorCodes::UserNameInvalid));
    assert_eq!(init_user(&mut m, AUTHOR, "n".repeat(51), 1), Err(ErrorCodes::UserNameInvalid));
    assert!(m.user(AUTHOR).is_none());
    assert_eq!(init_user(&mut m, AUTHOR, "n".repeat(50), 1), Ok(()));
    assert_eq!(
        init_user(&mut m, AUTHOR, s("again"), 2),
        Err(ErrorCodes::UserAlreadyRegistered)
    );
    assert_eq!(m.user(AUTHOR).unwrap().name, "n".repeat(50));
}

#[test]
fn name_bound_counts_utf8_bytes() {
    let mut m = Marketplace::new(vec![ADMIN]);
    // 26 two-byte characters: 52 bytes, over the bound of 50.
    assert_eq!(init_user(&mut m, AUTHOR, "é".repeat(26), 1), Err(ErrorCodes::UserNameInvalid));
    assert_eq!(init_user(&mut m, AUTHOR, "é".repeat(25), 1), Ok(()));
}

#[test]
fn publish_creates_listing_and_counts_it() {
    let m = market_with_listing(1000);
    let p = m.paper(AUTHOR).unwrap();
    assert_eq!(p.author, AUTHOR);
    assert_eq!(p.title, "On Ledgers");
    assert_eq!(p.price, 1000);
    assert_eq!((p.sales, p.reviews), (0, 0));
    assert_eq!(p.timestamp, 12);
    assert_eq!(m.user(AUTHOR).unwrap().published, 1);
}

#[test]
fn publish_validation_errors() {
    let mut m = Marketplace::new(vec![ADMIN]);
    init_user(&mut m, AUTHOR, s("alice"), 1).unwrap();
    let call = |m: &mut Marketplace, t: String, d: String, price: u64, u: String, k: String| {
        init_research(m, AUTHOR, t, d, price, u, k, 5)
    };
    assert_eq!(call(&mut m, s(""), s("d"), 1, s("u"), s("k")), Err(ErrorCodes::PaperTitleInvalid));
    assert_eq!(call(&mut m, "t".repeat(101), s("d"), 1, s("u"), s("k")), Err(ErrorCodes::PaperTitleInvalid));
    assert_eq!(call(&mut m, s("t"), s(""), 1, s("u"), s("k")), Err(ErrorCodes::PaperDescriptionInvalid));
    assert_eq!(call(&mut m, s("t"), "d".repeat(401), 1, s("u"), s("k")), Err(ErrorCodes::PaperDescriptionInvalid));
    assert_eq!(call(&mut m, s("t"), s("d"), 1, s(""), s("k")), Err(ErrorCodes::PaperUrlEmptyOrTooLong));
    assert_eq!(call(&mut m, s("t"), s("d"), 1, "u".repeat(201), s("k")), Err(ErrorCodes::PaperUrlEmptyOrTooLong));
    assert_eq!(call(&mut m, s("t"), s("d"), 1, s("u"), s("")), Err(ErrorCodes::EncryptionKeyEmptyOrTooLong));
    assert_eq!(call(&mut m, s("t"), s("d"), 1, s("u"), "k".repeat(301)), Err(ErrorCodes::EncryptionKeyEmptyOrTooLong));
    assert_eq!(call(&mut m, s("t"), s("d"), 0, s("u"), s("k")), Err(ErrorCodes::ResearchPriceInvalid));
    // The first invalid field decides the error.
    assert_eq!(call(&mut m, s(""), s(""), 0, s(""), s("")), Err(ErrorCodes::PaperTitleInvalid));
    assert!(m.paper(AUTHOR).is_none());
    assert_eq!(m.user(AUTHOR).unwrap().published, 0);
    // Every bound is inclusive.
    assert_eq!(
        call(&mut m, "t".repeat(100), "d".repeat(400), 1, "u".repeat(200), "k".repeat(300)),
        Ok(())
    );
}

#[test]
fn publish_needs_identity_and_one_listing_per_author() {
    let mut m = Marketplace::new(vec![ADMIN]);
    assert_eq!(
        init_research(&mut m, OTHER, s("t"), s("d"), 5, s("u"), s("k"), 1),
        Err(ErrorCodes::UserNotRegistered)
    );
    let mut m = market_with_listing(1000);
    assert_eq!(
        init_research(&mut m, AUTHOR, s("t2"), s("d2"), 5, s("u2"), s("k2"), 1),
        Err(ErrorCodes::PaperAlreadyPublished)
    );
    assert_eq!(m.paper(AUTHOR).unwrap().title, "On Ledgers");
}

#[test]
fn update_by_author_replaces_fields() {
    let mut m = market_with_listing(1000);
    m.fund_wallet(BUYER, 5000).unwrap();
    purchase_access(&mut m, BUYER, AUTHOR, 20).unwrap();
    assert_eq!(
        update_research(&mut m, AUTHOR, AUTHOR, s("New"), s("Newer"), 700, s("ipfs://2"), s("k2")),
        Ok(())
    );
    let p = m.paper(AUTHOR).unwrap();
    assert_eq!(p.title, "New");
    assert_eq!(p.description, "Newer");
    assert_eq!(p.price, 700);
    assert_eq!(p.encrypted_url, "ipfs://2");
    assert_eq!(p.encryption_key, "k2");
    assert_eq!(p.sales, 1);
    assert_eq!(p.timestamp, 12);
}

#[test]
fn update_errors() {
    let mut m = market_with_listing(1000);
    assert_eq!(
        update_research(&mut m, BUYER, AUTHOR, s("x"), s("y"), 1, s("u"), s("k")),
        Err(ErrorCodes::UnauthorizedUpdate)
    );
    assert_eq!(
        update_research(&mut m, AUTHOR, AUTHOR, s("x"), s("y"), 0, s("u"), s("k")),
        Err(ErrorCodes::ResearchPriceInvalid)
    );
    assert_eq!(
        update_research(&mut m, AUTHOR, OTHER, s("x"), s("y"), 1, s("u"), s("k")),
        Err(ErrorCodes::PaperNotFound)
    );
    assert_eq!(m.paper(AUTHOR).unwrap().price, 1000);
}

#[test]
fn purchase_splits_payment_and_counts() {
    let mut m = market_with_listing(1000);
    m.fund_wallet(BUYER, 3000).unwrap();
    assert_eq!(purchase_access(&mut m, BUYER, AUTHOR, 30), Ok(()));
    assert_eq!(m.vault_balance(AUTHOR), 950);
    assert_eq!(m.platform_balance(), 50);
    assert_eq!(m.wallet_balance(BUYER), 2000);
    let rec = m.receipt(BUYER, AUTHOR).unwrap();
    assert_eq!((rec.buyer, rec.purchased_paper, rec.timestamp), (BUYER, AUTHOR, 30));
    assert_eq!(m.paper(AUTHOR).unwrap().sales, 1);
    assert_eq!(m.user(BUYER).unwrap().purchased, 1);
    assert_eq!(m.user(AUTHOR).unwrap().sold, 1);
    assert_eq!(m.user(AUTHOR).unwrap().earning, 950);
}

#[test]
fn second_purchase_is_refused() {
    let mut m = market_with_listing(1000);
    m.fund_wallet(BUYER, 3000).unwrap();
    purchase_access(&mut m, BUYER, AUTHOR, 30).unwrap();
    assert_eq!(purchase_access(&mut m, BUYER, AUTHOR, 31), Err(ErrorCodes::AlreadyPurchased));
    assert_eq!(m.wallet_balance(BUYER), 2000);
    assert_eq!(m.vault_balance(AUTHOR), 950);
    assert_eq!(m.platform_balance(), 50);
    assert_eq!(m.paper(AUTHOR).unwrap().sales, 1);
    assert_eq!(m.user(BUYER).unwrap().purchased, 1);
    assert_eq!(m.user(AUTHOR).unwrap().sold, 1);
    assert_eq!(m.receipt(BUYER, AUTHOR).unwrap().timestamp, 30);
}

#[test]
fn purchase_errors() {
    let mut m = market_with_listing(1000);
    m.fund_wallet(AUTHOR, 5000).unwrap();
    m.fund_wallet(BUYER, 999).unwrap();
    assert_eq!(purchase_access(&mut m, AUTHOR, AUTHOR, 1), Err(ErrorCodes::AuthorCantBuySelf));
    assert_eq!(
        purchase_access(&mut m, BUYER, AUTHOR, 1),
        Err(ErrorCodes::InsufficientFundsInWallet)
    );
    assert_eq!(purchase_access(&mut m, BUYER, OTHER, 1), Err(ErrorCodes::PaperNotFound));
    assert_eq!(purchase_access(&mut m, OTHER, AUTHOR, 1), Err(ErrorCodes::UserNotRegistered));
    assert_eq!(m.wallet_balance(BUYER), 999);
    assert!(m.receipt(BUYER, AUTHOR).is_none());
}

#[test]
fn purchase_fee_overflow() {
    let price = u64::MAX / 5 + 1;
    let mut m = market_with_listing(price);
    m.fund_wallet(BUYER, u64::MAX).unwrap();
    assert_eq!(purchase_access(&mut m, BUYER, AUTHOR, 1), Err(ErrorCodes::MathOverflow));
    assert_eq!(m.wallet_balance(BUYER), u64::MAX);
    assert!(m.receipt(BUYER, AUTHOR).is_none());
}

#[test]
fn review_requires_purchase() {
    let mut m = market_with_listing(1000);
    assert_eq!(
        review_paper(&mut m, BUYER, AUTHOR, s("ipfs://review"), 10, 1),
        Err(ErrorCodes::PaperNotPurchased)
    );
    assert_eq!(
        review_paper(&mut m, BUYER, AUTHOR, s(""), 0, 1),
        Err(ErrorCodes::PaperNotPurchased)
    );
    assert_eq!(
        review_paper(&mut m, OTHER, OTHER, s("x"), 1, 1),
        Err(ErrorCodes::PaperNotPurchased)
    );
    assert_eq!(
        review_paper(&mut m, AUTHOR, AUTHOR, s("x"), 1, 1),
        Err(ErrorCodes::PaperNotPurchased)
    );
    assert!(m.review(BUYER, AUTHOR).is_none());
}

#[test]
fn review_submission_and_errors() {
    let mut m = market_with_listing(1000);
    m.fund_wallet(BUYER, 1000).unwrap();
    purchase_access(&mut m, BUYER, AUTHOR, 2).unwrap();
    assert_eq!(
        review_paper(&mut m, BUYER, AUTHOR, s(""), 10, 3),
        Err(ErrorCodes::ReviewUrlEmpty)
    );
    assert_eq!(
        review_paper(&mut m, BUYER, AUTHOR, "r".repeat(201), 10, 3),
        Err(ErrorCodes::ReviewUrlEmpty)
    );
    assert_eq!(review_paper(&mut m, BUYER, AUTHOR, "r".repeat(200), 10, 3), Ok(()));
    let rev = m.review(BUYER, AUTHOR).unwrap();
    assert_eq!(rev.status, ReviewStatus::Pending);
    assert_eq!((rev.reviewer, rev.reviewed_paper, rev.proposed_reward, rev.timestamp), (BUYER, AUTHOR, 10, 3));
    assert_eq!(m.paper(AUTHOR).unwrap().reviews, 1);
    assert_eq!(m.user(BUYER).unwrap().reviewed, 1);
    assert_eq!(
        review_paper(&mut m, BUYER, AUTHOR, s("again"), 10, 4),
        Err(ErrorCodes::AlreadyReviewed)
    );
    assert_eq!(m.paper(AUTHOR).unwrap().reviews, 1);
}

fn market_with_review(reward: u64) -> Marketplace {
    let mut m = market_with_listing(1000);
    m.fund_wallet(BUYER, 1000).unwrap();
    purchase_access(&mut m, BUYER, AUTHOR, 2).unwrap();
    review_paper(&mut m, BUYER, AUTHOR, s("ipfs://review"), reward, 3).unwrap();
    m
}

#[test]
fn accept_review_settles_reward() {
    let mut m = market_with_review(200);
    m.fund_wallet(AUTHOR, 500).unwrap();
    assert_eq!(verify_review(&mut m, AUTHOR, BUYER, AUTHOR, true), Ok(()));
    assert_eq!(m.vault_balance(BUYER), 190);
    assert_eq!(m.platform_balance(), 50 + 10);
    assert_eq!(m.wallet_balance(AUTHOR), 300);
    assert_eq!(m.user(BUYER).unwrap().earning, 190);
    assert_eq!(m.review(BUYER, AUTHOR).unwrap().status, ReviewStatus::Accepted);
    for accept in [true, false] {
        assert_eq!(
            verify_review(&mut m, AUTHOR, BUYER, AUTHOR, accept),
            Err(ErrorCodes::ReviewNotPending)
        );
    }
    assert_eq!(m.vault_balance(BUYER), 190);
    assert_eq!(m.platform_balance(), 60);
    assert_eq!(m.wallet_balance(AUTHOR), 300);
}

#[test]
fn reject_review_moves_nothing() {
    let mut m = market_with_review(200);
    m.fund_wallet(AUTHOR, 500).unwrap();
    assert_eq!(verify_review(&mut m, AUTHOR, BUYER, AUTHOR, false), Ok(()));
    assert_eq!(m.review(BUYER, AUTHOR).unwrap().status, ReviewStatus::Rejected);
    assert_eq!(m.wallet_balance(AUTHOR), 500);
    assert_eq!(m.vault_balance(BUYER), 0);
    assert_eq!(m.vault_balance(AUTHOR), 950);
    assert_eq!(m.platform_balance(), 50);
    assert_eq!(m.wallet_balance(BUYER), 0);
    assert_eq!(m.user(BUYER).unwrap().earning, 0);
    assert_eq!(
        verify_review(&mut m, AUTHOR, BUYER, AUTHOR, true),
        Err(ErrorCodes::ReviewNotPending)
    );
}

#[test]
fn verify_review_errors() {
    let mut m = market_with_review(200);
    assert_eq!(
        verify_review(&mut m, OTHER, BUYER, AUTHOR, true),
        Err(ErrorCodes::UnauthorizedUpdate)
    );
    assert_eq!(
        verify_review(&mut m, AUTHOR, BUYER, AUTHOR, true),
        Err(ErrorCodes::InsufficientFundsInWallet)
    );
    assert_eq!(
        verify_review(&mut m, AUTHOR, OTHER, AUTHOR, true),
        Err(ErrorCodes::ReviewNotFound)
    );
    assert_eq!(m.review(BUYER, AUTHOR).unwrap().status, ReviewStatus::Pending);
}

#[test]
fn end_to_end_example() {
    let mut m = Marketplace::new(vec![ADMIN]);
    init_user(&mut m, AUTHOR, s("A"), 1).unwrap();
    init_user(&mut m, BUYER, s("B"), 1).unwrap();
    init_research(&mut m, AUTHOR, s("Paper"), s("About"), 1000, s("url"), s("key"), 2).unwrap();
    m.fund_wallet(BUYER, 1000).unwrap();
    m.fund_wallet(AUTHOR, 200).unwrap();
    purchase_access(&mut m, BUYER, AUTHOR, 3).unwrap();
    assert_eq!(m.vault_balance(AUTHOR), 950);
    assert_eq!(m.platform_balance(), 50);
    assert_eq!(m.user(BUYER).unwrap().purchased, 1);
    review_paper(&mut m, BUYER, AUTHOR, s("review"), 200, 4).unwrap();
    verify_review(&mut m, AUTHOR, BUYER, AUTHOR, true).unwrap();
    assert_eq!(m.vault_balance(BUYER), 190);
    assert_eq!(m.platform_balance(), 60);
    assert_eq!(m.review(BUYER, AUTHOR).unwrap().status, ReviewStatus::Accepted);
}

#[test]
fn withdraw_limited_to_vault() {
    let mut m = market_with_listing(1000);
    m.fund_wallet(BUYER, 1000).unwrap();
    purchase_access(&mut m, BUYER, AUTHOR, 2).unwrap();
    for amount in [951u64, 1000, u64::MAX] {
        assert_eq!(
            user_withdraw(&mut m, AUTHOR, amount),
            Err(ErrorCodes::InsufficientFundsInVault)
        );
        assert_eq!(m.vault_balance(AUTHOR), 950);
    }
    assert_eq!(user_withdraw(&mut m, OTHER, 1), Err(ErrorCodes::InsufficientFundsInVault));
    assert_eq!(user_withdraw(&mut m, AUTHOR, 900), Ok(()));
    assert_eq!(m.vault_balance(AUTHOR), 50);
    assert_eq!(m.wallet_balance(AUTHOR), 900);
    assert_eq!(user_withdraw(&mut m, AUTHOR, 50), Ok(()));
    assert_eq!(m.vault_balance(AUTHOR), 0);
    assert_eq!(user_withdraw(&mut m, AUTHOR, 1), Err(ErrorCodes::InsufficientFundsInVault));
    assert_eq!(user_withdraw(&mut m, AUTHOR, 0), Ok(()));
}

#[test]
fn withdraw_wallet_overflow() {
    let mut m = market_with_listing(1000);
    m.fund_wallet(BUYER, 1000).unwrap();
    purchase_access(&mut m, BUYER, AUTHOR, 2).unwrap();
    m.fund_wallet(AUTHOR, u64::MAX).unwrap();
    assert_eq!(user_withdraw(&mut m, AUTHOR, 1), Err(ErrorCodes::MathOverflow));
    assert_eq!(m.vault_balance(AUTHOR), 950);
    assert_eq!(m.fund_wallet(AUTHOR, 1), Err(ErrorCodes::MathOverflow));
}

#[test]
fn admin_withdraw_paths() {
    let mut m = market_with_listing(1000);
    m.fund_wallet(BUYER, 1000).unwrap();
    purchase_access(&mut m, BUYER, AUTHOR, 2).unwrap();
    assert_eq!(admin_withdraw(&mut m, ADMIN, 51), Err(ErrorCodes::InsufficientFundsInVault));
    assert_eq!(admin_withdraw(&mut m, AUTHOR, 10), Err(ErrorCodes::UnauthorizedAdmin));
    assert_eq!(m.platform_balance(), 50);
    assert_eq!(admin_withdraw(&mut m, ADMIN, 30), Ok(()));
    assert_eq!(m.platform_balance(), 20);
    assert_eq!(m.wallet_balance(ADMIN), 30);
    // The vault check comes before the administrator check.
    assert_eq!(admin_withdraw(&mut m, AUTHOR, 21), Err(ErrorCodes::InsufficientFundsInVault));
}

#[test]
fn error_messages_are_distinct() {
    assert_eq!(ErrorCodes::MathOverflow.message(), "Mathematical Operation Overflow");
    assert_ne!(
        ErrorCodes::AlreadyPurchased.message(),
        ErrorCodes::AlreadyReviewed.message()
    );
}
