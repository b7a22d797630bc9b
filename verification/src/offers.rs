//! The offer lifecycle: creation, listing, acceptance, the fiat payment
//! handshake and the final release of the escrowed funds to the buyer.
//!
//! Every operation takes the records it touches as `&mut`, the identity of
//! the caller, and — where time or the ledger's reserve matter — the current
//! timestamp and the externally computed minimum reserve. Each contract
//! states exactly when the operation succeeds, which error it returns
//! otherwise, and that a failed operation changes nothing.

use vstd::prelude::*;

use crate::errors::P2PExchangeError;
use crate::events::{FiatReceiptConfirmed, FiatSent, OfferAccepted, OfferCreated, SolReleased};
use crate::state::{
    AccountId, EscrowVault, Offer, OfferStatus, PayoutAuthority, MAX_FIAT_CURRENCY_LEN,
    MAX_PAYMENT_METHOD_LEN,
};
use crate::utils::{
    is_valid_currency_code, trim_of, valid_currency_code, validate_and_process_string,
};

verus! {

/// The error `create_offer` returns for the given inputs, or `None` where it
/// succeeds. Inputs are checked in this order: the currency string, the
/// payment-method string, the currency-code format, the amounts, and last
/// that the vault balance fits the ledger's unit type.
pub open spec fn create_offer_error(
    fiat_currency: Seq<char>,
    payment_method: Seq<char>,
    amount: u64,
    fiat_amount: u64,
    reserve: u64,
) -> Option<P2PExchangeError> {
    let tc = trim_of(fiat_currency);
    let tp = trim_of(payment_method);
    if tc.len() == 0 || tc.len() > MAX_FIAT_CURRENCY_LEN {
        Some(P2PExchangeError::InputTooLong)
    } else if tp.len() == 0 || tp.len() > MAX_PAYMENT_METHOD_LEN {
        Some(P2PExchangeError::InputTooLong)
    } else if !valid_currency_code(tc) {
        Some(P2PExchangeError::InvalidCurrencyCode)
    } else if amount == 0 || fiat_amount == 0 {
        Some(P2PExchangeError::InvalidAmount)
    } else if amount + reserve > u64::MAX {
        Some(P2PExchangeError::MathOverflow)
    } else {
        None
    }
}

/// Creates an offer together with its escrow vault. The vault starts at the
/// ledger-mandated `reserve` and is immediately funded with the seller's
/// `amount`, so on success it holds exactly `amount + reserve`.
pub fn create_offer(
    offer_id: AccountId,
    seller: AccountId,
    amount: u64,
    fiat_amount: u64,
    fiat_currency: &str,
    payment_method: &str,
    created_at: i64,
    reserve: u64,
) -> (r: Result<(Offer, EscrowVault, OfferCreated), P2PExchangeError>)
    ensures
        (r is Ok) <==> create_offer_error(
            fiat_currency@,
            payment_method@,
            amount,
            fiat_amount,
            reserve,
        ) is None,
        r matches Err(e) ==> Some(e) == create_offer_error(
            fiat_currency@,
            payment_method@,
            amount,
            fiat_amount,
            reserve,
        ),
        r matches Ok(t) ==> {
            let (offer, vault, ev) = t;
            &&& offer.id == offer_id
            &&& offer.seller == seller
            &&& offer.buyer is None
            &&& offer.amount == amount
            &&& offer.security_bond == 0
            &&& offer.status is Created
            &&& offer.fiat_amount == fiat_amount
            &&& offer.fiat_currency@ == trim_of(fiat_currency@)
            &&& offer.payment_method@ == trim_of(payment_method@)
            &&& offer.created_at == created_at
            &&& offer.updated_at == created_at
            &&& offer.dispute_id is None
            &&& offer.wf()
            &&& vault.offer == offer_id
            &&& vault.balance == amount + reserve
            &&& ev.offer == offer_id
            &&& ev.seller == seller
            &&& ev.amount == amount
            &&& ev.fiat_amount == fiat_amount
            &&& ev.fiat_currency@ == trim_of(fiat_currency@)
        },
{
    let fc = validate_and_process_string(fiat_currency, MAX_FIAT_CURRENCY_LEN)?;
    let pm = validate_and_process_string(payment_method, MAX_PAYMENT_METHOD_LEN)?;
    if !is_valid_currency_code(fc.as_str()) {
        return Err(P2PExchangeError::InvalidCurrencyCode);
    }
    if amount == 0 || fiat_amount == 0 {
        return Err(P2PExchangeError::InvalidAmount);
    }
    let mut vault = EscrowVault::new(offer_id, reserve);
    vault.fund(amount)?;
    let ev = OfferCreated {
        offer: offer_id,
        seller,
        amount,
        fiat_amount,
        fiat_currency: fc.clone(),
    };
    let offer = Offer {
        id: offer_id,
        seller,
        buyer: None,
        amount,
        security_bond: 0,
        status: OfferStatus::Created,
        fiat_amount,
        fiat_currency: fc,
        payment_method: pm,
        created_at,
        updated_at: created_at,
        dispute_id: None,
    };
    Ok((offer, vault, ev))
}

/// The error `list_offer` returns, or `None` where it succeeds: only the
/// seller may list, and only an offer still in `Created`.
pub open spec fn list_offer_error(offer: Offer, seller: AccountId) -> Option<P2PExchangeError> {
    if offer.seller != seller {
        Some(P2PExchangeError::Unauthorized)
    } else if !(offer.status is Created) {
        Some(P2PExchangeError::InvalidOfferStatus)
    } else {
        None
    }
}

/// Makes a freshly created offer visible: `Created` becomes `Listed`.
pub fn list_offer(offer: &mut Offer, seller: AccountId, now: i64) -> (r: Result<
    (),
    P2PExchangeError,
>)
    ensures
        (r is Ok) <==> list_offer_error(*old(offer), seller) is None,
        r matches Err(e) ==> {
            &&& Some(e) == list_offer_error(*old(offer), seller)
            &&& *final(offer) == *old(offer)
        },
        r is Ok ==> *final(offer) == (Offer {
            status: OfferStatus::Listed,
            updated_at: now,
            ..*old(offer)
        }),
        old(offer).wf() && r is Ok ==> final(offer).wf(),
{
    if offer.seller != seller {
        return Err(P2PExchangeError::Unauthorized);
    }
    if offer.status != OfferStatus::Created {
        return Err(P2PExchangeError::InvalidOfferStatus);
    }
    offer.status = OfferStatus::Listed;
    offer.updated_at = now;
    Ok(())
}

/// The error `accept_offer` returns, or `None` where it succeeds: the offer
/// must be `Listed`, and the vault must be able to hold the bond.
pub open spec fn accept_offer_error(
    offer: Offer,
    vault: EscrowVault,
    security_bond: u64,
) -> Option<P2PExchangeError> {
    if !(offer.status is Listed) {
        Some(P2PExchangeError::InvalidOfferStatus)
    } else if vault.balance + security_bond > u64::MAX {
        Some(P2PExchangeError::MathOverflow)
    } else {
        None
    }
}

/// Accepts a listed offer: records the buyer, locks the buyer's security
/// bond into the vault, and moves the offer to `Accepted`.
pub fn accept_offer(
    offer: &mut Offer,
    vault: &mut EscrowVault,
    buyer: AccountId,
    security_bond: u64,
    now: i64,
) -> (r: Result<OfferAccepted, P2PExchangeError>)
    requires
        old(vault).offer == old(offer).id,
    ensures
        (r is Ok) <==> accept_offer_error(*old(offer), *old(vault), security_bond) is None,
        r matches Err(e) ==> {
            &&& Some(e) == accept_offer_error(*old(offer), *old(vault), security_bond)
            &&& *final(offer) == *old(offer)
            &&& *final(vault) == *old(vault)
        },
        r matches Ok(ev) ==> {
            &&& *final(offer) == (Offer {
                buyer: Some(buyer),
                security_bond: security_bond,
                status: OfferStatus::Accepted,
                updated_at: now,
                ..*old(offer)
            })
            &&& final(vault).offer == old(vault).offer
            &&& final(vault).balance == old(vault).balance + security_bond
            &&& ev.offer == old(offer).id
            &&& ev.buyer == buyer
            &&& ev.security_bond == security_bond
        },
        old(offer).wf() && r is Ok ==> final(offer).wf(),
{
    if offer.status != OfferStatus::Listed {
        return Err(P2PExchangeError::InvalidOfferStatus);
    }
    if security_bond > 0 {
        vault.fund(security_bond)?;
    }
    offer.buyer = Some(buyer);
    offer.security_bond = security_bond;
    offer.status = OfferStatus::Accepted;
    offer.updated_at = now;
    Ok(OfferAccepted { offer: offer.id, buyer, security_bond })
}

/// The error `mark_fiat_sent` returns, or `None` where it succeeds: the
/// offer must be `Accepted` and the caller must be its recorded buyer.
pub open spec fn mark_fiat_sent_error(offer: Offer, buyer: AccountId) -> Option<
    P2PExchangeError,
> {
    if !(offer.status is Accepted) {
        Some(P2PExchangeError::InvalidOfferStatus)
    } else if offer.buyer != Some(buyer) {
        Some(P2PExchangeError::Unauthorized)
    } else {
        None
    }
}

/// The buyer asserts the fiat payment went out: `Accepted` becomes
/// `FiatSent`.
pub fn mark_fiat_sent(offer: &mut Offer, buyer: AccountId, now: i64) -> (r: Result<
    FiatSent,
    P2PExchangeError,
>)
    ensures
        (r is Ok) <==> mark_fiat_sent_error(*old(offer), buyer) is None,
        r matches Err(e) ==> {
            &&& Some(e) == mark_fiat_sent_error(*old(offer), buyer)
            &&& *final(offer) == *old(offer)
        },
        r matches Ok(ev) ==> {
            &&& *final(offer) == (Offer {
                status: OfferStatus::FiatSent,
                updated_at: now,
                ..*old(offer)
            })
            &&& ev.offer == old(offer).id
            &&& ev.buyer == buyer
        },
        old(offer).wf() && r is Ok ==> final(offer).wf(),
{
    if offer.status != OfferStatus::Accepted {
        return Err(P2PExchangeError::InvalidOfferStatus);
    }
    let buyer_matches = match offer.buyer {
        Some(b) => b == buyer,
        None => false,
    };
    if !buyer_matches {
        return Err(P2PExchangeError::Unauthorized);
    }
    offer.status = OfferStatus::FiatSent;
    offer.updated_at = now;
    Ok(FiatSent { offer: offer.id, buyer })
}

/// The error `confirm_fiat_receipt` returns, or `None` where it succeeds:
/// only the seller may confirm, and only from `FiatSent`.
pub open spec fn confirm_fiat_receipt_error(offer: Offer, seller: AccountId) -> Option<
    P2PExchangeError,
> {
    if offer.seller != seller {
        Some(P2PExchangeError::Unauthorized)
    } else if !(offer.status is FiatSent) {
        Some(P2PExchangeError::InvalidOfferStatus)
    } else {
        None
    }
}

/// The seller confirms the fiat payment arrived: `FiatSent` becomes the
/// release-ready state.
pub fn confirm_fiat_receipt(offer: &mut Offer, seller: AccountId, now: i64) -> (r: Result<
    FiatReceiptConfirmed,
    P2PExchangeError,
>)
    ensures
        (r is Ok) <==> confirm_fiat_receipt_error(*old(offer), seller) is None,
        r matches Err(e) ==> {
            &&& Some(e) == confirm_fiat_receipt_error(*old(offer), seller)
            &&& *final(offer) == *old(offer)
        },
        r matches Ok(ev) ==> {
            &&& *final(offer) == (Offer {
                status: OfferStatus::SolReleased,
                updated_at: now,
                ..*old(offer)
            })
            &&& ev.offer == old(offer).id
            &&& ev.seller == seller
        },
        old(offer).wf() && r is Ok ==> final(offer).wf(),
{
    if offer.seller != seller {
        return Err(P2PExchangeError::Unauthorized);
    }
    if offer.status != OfferStatus::FiatSent {
        return Err(P2PExchangeError::InvalidOfferStatus);
    }
    offer.status = OfferStatus::SolReleased;
    offer.updated_at = now;
    Ok(FiatReceiptConfirmed { offer: offer.id, seller })
}

/// The error `release_sol` returns, or `None` where it succeeds. Release
/// demands the release-ready state, the recorded identities, and — against
/// stale or manipulated balances — that the vault holds exactly
/// `amount + security_bond + reserve`.
pub open spec fn release_sol_error(
    offer: Offer,
    vault: EscrowVault,
    seller: AccountId,
    buyer: AccountId,
    reserve: u64,
) -> Option<P2PExchangeError> {
    if offer.seller != seller {
        Some(P2PExchangeError::Unauthorized)
    } else if !(offer.status is SolReleased) {
        Some(P2PExchangeError::InvalidOfferStatus)
    } else if offer.buyer != Some(buyer) {
        Some(P2PExchangeError::Unauthorized)
    } else if offer.amount + offer.security_bond + reserve > u64::MAX {
        Some(P2PExchangeError::MathOverflow)
    } else if vault.balance != offer.amount + offer.security_bond + reserve {
        Some(P2PExchangeError::InvalidEscrowBalance)
    } else {
        None
    }
}

/// Pays the full transferable balance — exactly `amount + security_bond` —
/// out of the vault to the buyer and completes the offer. The vault keeps
/// exactly the mandated reserve.
pub fn release_sol(
    offer: &mut Offer,
    vault: &mut EscrowVault,
    seller: AccountId,
    buyer: AccountId,
    reserve: u64,
    now: i64,
) -> (r: Result<SolReleased, P2PExchangeError>)
    requires
        old(vault).offer == old(offer).id,
    ensures
        (r is Ok) <==> release_sol_error(*old(offer), *old(vault), seller, buyer, reserve)
            is None,
        r matches Err(e) ==> {
            &&& Some(e) == release_sol_error(*old(offer), *old(vault), seller, buyer, reserve)
            &&& *final(offer) == *old(offer)
            &&& *final(vault) == *old(vault)
        },
        r matches Ok(ev) ==> {
            &&& *final(offer) == (Offer {
                status: OfferStatus::Completed,
                updated_at: now,
                ..*old(offer)
            })
            &&& final(vault).offer == old(vault).offer
            &&& final(vault).balance == reserve
            &&& ev.offer == old(offer).id
            &&& ev.buyer == buyer
            &&& ev.amount == old(offer).amount + old(offer).security_bond
            &&& ev.amount <= old(offer).amount + old(offer).security_bond
            &&& final(vault).balance >= reserve
        },
        old(offer).wf() && r is Ok ==> final(offer).wf(),
{
    if offer.seller != seller {
        return Err(P2PExchangeError::Unauthorized);
    }
    if offer.status != OfferStatus::SolReleased {
        return Err(P2PExchangeError::InvalidOfferStatus);
    }
    let buyer_matches = match offer.buyer {
        Some(b) => b == buyer,
        None => false,
    };
    if !buyer_matches {
        return Err(P2PExchangeError::Unauthorized);
    }
    if offer.amount > u64::MAX - offer.security_bond {
        return Err(P2PExchangeError::MathOverflow);
    }
    let amount_and_bond = offer.amount + offer.security_bond;
    if amount_and_bond > u64::MAX - reserve {
        return Err(P2PExchangeError::MathOverflow);
    }
    let expected_balance = amount_and_bond + reserve;
    if vault.balance != expected_balance {
        return Err(P2PExchangeError::InvalidEscrowBalance);
    }
    let transferable = vault.balance - reserve;
    if transferable > 0 {
        let auth = PayoutAuthority::derive(offer.id);
        vault.pay_out(&auth, transferable, reserve)?;
    }
    offer.status = OfferStatus::Completed;
    offer.updated_at = now;
    Ok(SolReleased { offer: offer.id, buyer, amount: transferable })
}

} // verus!
