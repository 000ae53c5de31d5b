use crate::amounts::BPS_DENOMINATOR;
use crate::error::QuestError;
use crate::events::ProtocolInitialized;
use crate::state::QuestConfig;
use anchor_lang::prelude::Pubkey;
use vstd::prelude::*;

verus! {

/// The configuration that `initialize` sets up: the given parties and rates, and
/// a quest counter at zero.
pub open spec fn initial_config(
    authority: Pubkey,
    treasury: Pubkey,
    fee_basis_points: u16,
    burn_basis_points: u16,
    bump: u8,
) -> QuestConfig {
    QuestConfig {
        authority,
        treasury,
        fee_basis_points,
        burn_basis_points,
        quest_count: 0,
        bump,
    }
}

/// Sets the protocol up.
///
/// Fails with `InvalidFeeConfig` exactly when a rate is over 10000 basis
/// points. Otherwise returns the fresh configuration, whose counter is zero,
/// and the event that announces it.
pub fn initialize(
    authority: Pubkey,
    treasury: Pubkey,
    fee_basis_points: u16,
    burn_basis_points: u16,
    bump: u8,
) -> (made: Result<(QuestConfig, ProtocolInitialized), QuestError>)
    ensures
        made is Ok <==> fee_basis_points <= BPS_DENOMINATOR && burn_basis_points
            <= BPS_DENOMINATOR,
        made matches Ok((config, event)) ==> {
            &&& config == initial_config(
                authority,
                treasury,
                fee_basis_points,
                burn_basis_points,
                bump,
            )
            &&& config.well_formed()
            &&& event == (ProtocolInitialized { authority, treasury, fee_basis_points })
        },
        made matches Err(reason) ==> reason == QuestError::InvalidFeeConfig,
{
    if fee_basis_points as u64 > BPS_DENOMINATOR {
        return Err(QuestError::InvalidFeeConfig);
    }
    if burn_basis_points as u64 > BPS_DENOMINATOR {
        return Err(QuestError::InvalidFeeConfig);
    }
    let config = QuestConfig {
        authority,
        treasury,
        fee_basis_points,
        burn_basis_points,
        quest_count: 0,
        bump,
    };
    let event = ProtocolInitialized { authority, treasury, fee_basis_points };
    Ok((config, event))
}

} // verus!
