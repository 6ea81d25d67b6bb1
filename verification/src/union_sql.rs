//! The fixed pieces of the statement of the first query type.

use crate::template::is_piece;
use vstd::prelude::*;

verus! {

/// Selects from the new table, up to the name of the index.
pub const SELECT_NEW: &'static str = "
        SELECT 
            ts, type, token0_address, token1_address, 
            token0_symbol, token1_symbol, 
            token0_volume, token1_volume, 
            token0_price_usd, token1_price_usd, 
            quote, volume, quote_index, maker, exclude, 
            factory, tx_hash, height, tx_id, log_id, 
            t0top AS token0TopPools, 
            t1top AS token1TopPools 
        FROM 
            dquery_dex_new.dex_swap_tx_solana
            USE INDEX (";

/// Asks for the first token.
pub const WHERE_TOKEN0: &'static str = ")
        WHERE 
            token0_address = '";

/// The fixed filters of the first half, up to the makers.
pub const FIXED_FILTERS0: &'static str = "' 
            AND platform = 16 
            AND no_anchor = 0 
            AND type = 0 
            AND maker IN (";

/// Asks for the start of the window.
pub const TS_FROM: &'static str = ") 
            AND ts >= '";

/// Asks for the end of the window.
pub const TS_TO: &'static str = "' 
            AND ts <= '";

/// Asks for the least volume.
pub const VOLUME_FROM: &'static str = "' 
            AND volume >= ";

/// Asks for the largest volume.
pub const VOLUME_TO: &'static str = " 
            AND volume <= ";

/// Selects from the old table, up to the name of the index.
pub const SELECT_OLD: &'static str = " 
        UNION ALL
        SELECT 
            ts, type, token0_address, token1_address, 
            token0_symbol, token1_symbol, 
            token0_volume, token1_volume, 
            token0_price_usd, token1_price_usd, 
            quote, volume, quote_index, maker, exclude, 
            factory, tx_hash, height, tx_id, log_id, 
            t0top AS token0TopPools, 
            t1top AS token1TopPools 
        FROM 
            dquery_dex.dex_swap_tx_solana_1206
            USE INDEX (";

/// Asks for the second token.
pub const WHERE_TOKEN1: &'static str = ")
        WHERE 
            token1_address = '";

/// The fixed filters of the second half, up to the makers.
pub const FIXED_FILTERS1: &'static str = "' 
            AND platform = 16 
            AND no_anchor = 0 
            AND type = 1 
            AND maker IN (";

/// Sorts by moment.
pub const ORDER_TS: &'static str = " 
        ORDER BY 
            ts ";

/// Then by height.
pub const ORDER_HEIGHT: &'static str = ", height ";

/// Then by transaction.
pub const ORDER_TX_ID: &'static str = ", tx_id ";

/// Then by log entry.
pub const ORDER_LOG_ID: &'static str = ", log_id ";

/// Ends the statement at a hundred rows.
pub const LIMIT: &'static str = " 
        LIMIT 100
        ";

pub(crate) proof fn pieces_hold_no_braces()
    ensures
        is_piece(SELECT_NEW@),
        is_piece(WHERE_TOKEN0@),
        is_piece(FIXED_FILTERS0@),
        is_piece(TS_FROM@),
        is_piece(TS_TO@),
        is_piece(VOLUME_FROM@),
        is_piece(VOLUME_TO@),
        is_piece(SELECT_OLD@),
        is_piece(WHERE_TOKEN1@),
        is_piece(FIXED_FILTERS1@),
        is_piece(ORDER_TS@),
        is_piece(ORDER_HEIGHT@),
        is_piece(ORDER_TX_ID@),
        is_piece(ORDER_LOG_ID@),
        is_piece(LIMIT@),
{
    assert(is_piece(SELECT_NEW@)) by {
        reveal_strlit("
        SELECT 
            ts, type, token0_address, token1_address, 
            token0_symbol, token1_symbol, 
            token0_volume, token1_volume, 
            token0_price_usd, token1_price_usd, 
            quote, volume, quote_index, maker, exclude, 
            factory, tx_hash, height, tx_id, log_id, 
            t0top AS token0TopPools, 
            t1top AS token1TopPools 
        FROM 
            dquery_dex_new.dex_swap_tx_solana
            USE INDEX (");
    }
    assert(is_piece(WHERE_TOKEN0@)) by {
        reveal_strlit(")
        WHERE 
            token0_address = '");
    }
    assert(is_piece(FIXED_FILTERS0@)) by {
        reveal_strlit("' 
            AND platform = 16 
            AND no_anchor = 0 
            AND type = 0 
            AND maker IN (");
    }
    assert(is_piece(TS_FROM@)) by {
        reveal_strlit(") 
            AND ts >= '");
    }
    assert(is_piece(TS_TO@)) by {
        reveal_strlit("' 
            AND ts <= '");
    }
    assert(is_piece(VOLUME_FROM@)) by {
        reveal_strlit("' 
            AND volume >= ");
    }
    assert(is_piece(VOLUME_TO@)) by {
        reveal_strlit(" 
            AND volume <= ");
    }
    assert(is_piece(SELECT_OLD@)) by {
        reveal_strlit(" 
        UNION ALL
        SELECT 
            ts, type, token0_address, token1_address, 
            token0_symbol, token1_symbol, 
            token0_volume, token1_volume, 
            token0_price_usd, token1_price_usd, 
            quote, volume, quote_index, maker, exclude, 
            factory, tx_hash, height, tx_id, log_id, 
            t0top AS token0TopPools, 
            t1top AS token1TopPools 
        FROM 
            dquery_dex.dex_swap_tx_solana_1206
            USE INDEX (");
    }
    assert(is_piece(WHERE_TOKEN1@)) by {
        reveal_strlit(")
        WHERE 
            token1_address = '");
    }
    assert(is_piece(FIXED_FILTERS1@)) by {
        reveal_strlit("' 
            AND platform = 16 
            AND no_anchor = 0 
            AND type = 1 
            AND maker IN (");
    }
    assert(is_piece(ORDER_TS@)) by {
        reveal_strlit(" 
        ORDER BY 
            ts ");
    }
    assert(is_piece(ORDER_HEIGHT@)) by {
        reveal_strlit(", height ");
    }
    assert(is_piece(ORDER_TX_ID@)) by {
        reveal_strlit(", tx_id ");
    }
    assert(is_piece(ORDER_LOG_ID@)) by {
        reveal_strlit(", log_id ");
    }
    assert(is_piece(LIMIT@)) by {
        reveal_strlit(" 
        LIMIT 100
        ");
    }
}

} // verus!
