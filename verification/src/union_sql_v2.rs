//! The fixed pieces of the statement of the second and later query types.

use crate::template::is_piece;
use vstd::prelude::*;

verus! {

/// Selects from the new table, up to the name of the index.
pub const SELECT_NEW: &'static str = "
        SELECT
          `ts`,
          TYPE,
          `token0_address`,
          `token1_address`,
          `token0_symbol`,
          `token1_symbol`,
          `token0_volume`,
          `token1_volume`,
          `token0_price_usd`,
          `token1_price_usd`,
          `quote`,
          `volume`,
          `quote_index`,
          `maker`,
          `exclude`,
          `factory`,
          `tx_hash`,
          `height`,
          `tx_id`,
          `log_id`,
          `t0top` AS `token0toppools`,
          `t1top` AS `token1toppools`,
          `token0_position_type`,
          `token1_position_type`
        FROM
          `dquery_dex_new`.`dex_swap_tx_solana`
          USE INDEX (";

/// Opens the conditions of a half.
pub const WHERE_CONDITIONS: &'static str = ")
        WHERE
          ";

/// Selects from the old table, up to the name of the index.
pub const SELECT_OLD: &'static str = "
        UNION
        ALL
        SELECT
          `ts`,
          TYPE,
          `token0_address`,
          `token1_address`,
          `token0_symbol`,
          `token1_symbol`,
          `token0_volume`,
          `token1_volume`,
          `token0_price_usd`,
          `token1_price_usd`,
          `quote`,
          `volume`,
          `quote_index`,
          `maker`,
          `exclude`,
          `factory`,
          `tx_hash`,
          `height`,
          `tx_id`,
          `log_id`,
          `t0top` AS `token0toppools`,
          `t1top` AS `token1toppools`,
          `token0_position_type`,
          `token1_position_type`
        FROM
          `dquery_dex`.`dex_swap_tx_solana_1206`
          USE INDEX (";

/// Sorts by moment.
pub const ORDER_TS: &'static str = "
        ORDER BY
          `ts` ";

/// Then by height.
pub const ORDER_HEIGHT: &'static str = ",
          `height` ";

/// Then by transaction.
pub const ORDER_TX_ID: &'static str = ",
          `tx_id` ";

/// Then by log entry.
pub const ORDER_LOG_ID: &'static str = ",
          `log_id` ";

/// Ends the statement at a hundred rows.
pub const LIMIT: &'static str = "
        LIMIT
          100
        ";

/// Stands between two conditions.
pub const AND: &'static str = "
            AND ";

pub(crate) proof fn pieces_hold_no_braces()
    ensures
        is_piece(SELECT_NEW@),
        is_piece(WHERE_CONDITIONS@),
        is_piece(SELECT_OLD@),
        is_piece(ORDER_TS@),
        is_piece(ORDER_HEIGHT@),
        is_piece(ORDER_TX_ID@),
        is_piece(ORDER_LOG_ID@),
        is_piece(LIMIT@),
        is_piece(AND@),
{
    assert(is_piece(SELECT_NEW@)) by {
        reveal_strlit("
        SELECT
          `ts`,
          TYPE,
          `token0_address`,
          `token1_address`,
          `token0_symbol`,
          `token1_symbol`,
          `token0_volume`,
          `token1_volume`,
          `token0_price_usd`,
          `token1_price_usd`,
          `quote`,
          `volume`,
          `quote_index`,
          `maker`,
          `exclude`,
          `factory`,
          `tx_hash`,
          `height`,
          `tx_id`,
          `log_id`,
          `t0top` AS `token0toppools`,
          `t1top` AS `token1toppools`,
          `token0_position_type`,
          `token1_position_type`
        FROM
          `dquery_dex_new`.`dex_swap_tx_solana`
          USE INDEX (");
    }
    assert(is_piece(WHERE_CONDITIONS@)) by {
        reveal_strlit(")
        WHERE
          ");
    }
    assert(is_piece(SELECT_OLD@)) by {
        reveal_strlit("
        UNION
        ALL
        SELECT
          `ts`,
          TYPE,
          `token0_address`,
          `token1_address`,
          `token0_symbol`,
          `token1_symbol`,
          `token0_volume`,
          `token1_volume`,
          `token0_price_usd`,
          `token1_price_usd`,
          `quote`,
          `volume`,
          `quote_index`,
          `maker`,
          `exclude`,
          `factory`,
          `tx_hash`,
          `height`,
          `tx_id`,
          `log_id`,
          `t0top` AS `token0toppools`,
          `t1top` AS `token1toppools`,
          `token0_position_type`,
          `token1_position_type`
        FROM
          `dquery_dex`.`dex_swap_tx_solana_1206`
          USE INDEX (");
    }
    assert(is_piece(ORDER_TS@)) by {
        reveal_strlit("
        ORDER BY
          `ts` ");
    }
    assert(is_piece(ORDER_HEIGHT@)) by {
        reveal_strlit(",
          `height` ");
    }
    assert(is_piece(ORDER_TX_ID@)) by {
        reveal_strlit(",
          `tx_id` ");
    }
    assert(is_piece(ORDER_LOG_ID@)) by {
        reveal_strlit(",
          `log_id` ");
    }
    assert(is_piece(LIMIT@)) by {
        reveal_strlit("
        LIMIT
          100
        ");
    }
    assert(is_piece(AND@)) by {
        reveal_strlit("
            AND ");
    }
}

} // verus!
