//! The built-in example trading systems: their identifiers, warm-up
//! lengths and the names of the columns their pipelines produce.

use vstd::prelude::*;
use crate::ingest::{
    field_names, field_types, price_field_names, price_field_types, price_fields, ColumnType, FieldSpec,
};

verus! {

/// Name of the `pct_change` column.
pub const PCT_CHANGE: &'static str = "pct_change";

/// Name of the `pct_change_shifted` column.
pub const PCT_CHANGE_SHIFTED: &'static str = "pct_change_shifted";

/// Name of the `price_shifted` column.
pub const PRICE_SHIFTED: &'static str = "price_shifted";

/// Name of the `lag_1` column.
pub const LAG_1: &'static str = "lag_1";

/// Name of the `lag_2` column.
pub const LAG_2: &'static str = "lag_2";

/// Name of the `lag_4` column.
pub const LAG_4: &'static str = "lag_4";

/// Name of the `lag_5` column.
pub const LAG_5: &'static str = "lag_5";

/// Name of the `lag_8` column.
pub const LAG_8: &'static str = "lag_8";

/// Name of the `lag_16` column.
pub const LAG_16: &'static str = "lag_16";

/// Name of the `adr` column.
pub const ADR: &'static str = "adr";

/// Name of the `atr` column.
pub const ATR: &'static str = "atr";

/// Name of the `ma_7` column.
pub const MA_7: &'static str = "ma_7";

/// Name of the `ma_21` column.
pub const MA_21: &'static str = "ma_21";

/// Name of the `lag_8_rolling_7_std` column.
pub const LAG_8_ROLLING_7_STD: &'static str = "lag_8_rolling_7_std";

/// Name of the `lag_8_rolling_21_std` column.
pub const LAG_8_ROLLING_21_STD: &'static str = "lag_8_rolling_21_std";

/// Name of the `lag_16_rolling_7_std` column.
pub const LAG_16_ROLLING_7_STD: &'static str = "lag_16_rolling_7_std";

/// Name of the `lag_16_rolling_21_std` column.
pub const LAG_16_ROLLING_21_STD: &'static str = "lag_16_rolling_21_std";

/// Name of the `lag_8_rolling_7_std_adr_div` column.
pub const LAG_8_ROLLING_7_STD_ADR_DIV: &'static str = "lag_8_rolling_7_std_adr_div";

/// Name of the `lag_8_rolling_21_std_adr_div` column.
pub const LAG_8_ROLLING_21_STD_ADR_DIV: &'static str = "lag_8_rolling_21_std_adr_div";

/// Name of the `lag_16_rolling_7_std_adr_div` column.
pub const LAG_16_ROLLING_7_STD_ADR_DIV: &'static str = "lag_16_rolling_7_std_adr_div";

/// Name of the `lag_16_rolling_21_std_adr_div` column.
pub const LAG_16_ROLLING_21_STD_ADR_DIV: &'static str = "lag_16_rolling_21_std_adr_div";

/// Name of the `pct_rank_63` column.
pub const PCT_RANK_63: &'static str = "pct_rank_63";

/// Name of the `pct_rank_126` column.
pub const PCT_RANK_126: &'static str = "pct_rank_126";

/// Name of the `pct_rank_diff` column.
pub const PCT_RANK_DIFF: &'static str = "pct_rank_diff";

/// Name of the `pct_rank_63_lag_1` column.
pub const PCT_RANK_63_LAG_1: &'static str = "pct_rank_63_lag_1";

/// Name of the `pct_rank_63_lag_2` column.
pub const PCT_RANK_63_LAG_2: &'static str = "pct_rank_63_lag_2";

/// Name of the `pct_rank_63_lag_4` column.
pub const PCT_RANK_63_LAG_4: &'static str = "pct_rank_63_lag_4";

/// Name of the `pct_rank_63_lag_8` column.
pub const PCT_RANK_63_LAG_8: &'static str = "pct_rank_63_lag_8";

/// Name of the `pct_rank_63_lag_16` column.
pub const PCT_RANK_63_LAG_16: &'static str = "pct_rank_63_lag_16";

/// Name of the `pct_rank_126_lag_1` column.
pub const PCT_RANK_126_LAG_1: &'static str = "pct_rank_126_lag_1";

/// Name of the `pct_rank_126_lag_2` column.
pub const PCT_RANK_126_LAG_2: &'static str = "pct_rank_126_lag_2";

/// Name of the `pct_rank_126_lag_4` column.
pub const PCT_RANK_126_LAG_4: &'static str = "pct_rank_126_lag_4";

/// Name of the `pct_rank_126_lag_8` column.
pub const PCT_RANK_126_LAG_8: &'static str = "pct_rank_126_lag_8";

/// Name of the `pct_rank_126_lag_16` column.
pub const PCT_RANK_126_LAG_16: &'static str = "pct_rank_126_lag_16";

/// Name of the `rsi_7` column.
pub const RSI_7: &'static str = "rsi_7";

/// Name of the `rsi_9` column.
pub const RSI_9: &'static str = "rsi_9";

/// Name of the `rsi_13` column.
pub const RSI_13: &'static str = "rsi_13";

/// Name of the `rsi_diff_13_7` column.
pub const RSI_DIFF_13_7: &'static str = "rsi_diff_13_7";

/// Name of the `rsi_diff_13_9` column.
pub const RSI_DIFF_13_9: &'static str = "rsi_diff_13_9";

/// Name of the `rsi_diff_9_7` column.
pub const RSI_DIFF_9_7: &'static str = "rsi_diff_9_7";

/// Name of the `rsi_7_ma_7` column.
pub const RSI_7_MA_7: &'static str = "rsi_7_ma_7";

/// Name of the `rsi_7_ma_21` column.
pub const RSI_7_MA_21: &'static str = "rsi_7_ma_21";

/// Name of the `rsi_9_ma_7` column.
pub const RSI_9_MA_7: &'static str = "rsi_9_ma_7";

/// Name of the `rsi_9_ma_21` column.
pub const RSI_9_MA_21: &'static str = "rsi_9_ma_21";

/// Name of the `rsi_ma_7_diff` column.
pub const RSI_MA_7_DIFF: &'static str = "rsi_ma_7_diff";

/// Name of the `rsi_ma_21_diff` column.
pub const RSI_MA_21_DIFF: &'static str = "rsi_ma_21_diff";

/// Name of the `rsi_7_lag_1` column.
pub const RSI_7_LAG_1: &'static str = "rsi_7_lag_1";

/// Name of the `rsi_7_lag_2` column.
pub const RSI_7_LAG_2: &'static str = "rsi_7_lag_2";

/// Name of the `rsi_7_lag_4` column.
pub const RSI_7_LAG_4: &'static str = "rsi_7_lag_4";

/// Name of the `rsi_7_lag_8` column.
pub const RSI_7_LAG_8: &'static str = "rsi_7_lag_8";

/// Name of the `rsi_7_lag_16` column.
pub const RSI_7_LAG_16: &'static str = "rsi_7_lag_16";

/// Name of the `rsi_9_lag_1` column.
pub const RSI_9_LAG_1: &'static str = "rsi_9_lag_1";

/// Name of the `rsi_9_lag_2` column.
pub const RSI_9_LAG_2: &'static str = "rsi_9_lag_2";

/// Name of the `rsi_9_lag_4` column.
pub const RSI_9_LAG_4: &'static str = "rsi_9_lag_4";

/// Name of the `rsi_9_lag_8` column.
pub const RSI_9_LAG_8: &'static str = "rsi_9_lag_8";

/// Name of the `rsi_9_lag_16` column.
pub const RSI_9_LAG_16: &'static str = "rsi_9_lag_16";

/// Name of the `rsi_13_lag_1` column.
pub const RSI_13_LAG_1: &'static str = "rsi_13_lag_1";

/// Name of the `rsi_13_lag_2` column.
pub const RSI_13_LAG_2: &'static str = "rsi_13_lag_2";

/// Name of the `rsi_13_lag_4` column.
pub const RSI_13_LAG_4: &'static str = "rsi_13_lag_4";

/// Name of the `rsi_13_lag_8` column.
pub const RSI_13_LAG_8: &'static str = "rsi_13_lag_8";

/// Name of the `rsi_13_lag_16` column.
pub const RSI_13_LAG_16: &'static str = "rsi_13_lag_16";

/// Name of the `ma_7_rolling_7_std` column.
pub const MA_7_ROLLING_7_STD: &'static str = "ma_7_rolling_7_std";

/// Name of the `ma_21_rolling_21_std` column.
pub const MA_21_ROLLING_21_STD: &'static str = "ma_21_rolling_21_std";

/// Name of the `ma_7_rolling_7_std_lower` column.
pub const MA_7_ROLLING_7_STD_LOWER: &'static str = "ma_7_rolling_7_std_lower";

/// Name of the `ma_7_rolling_7_std_upper` column.
pub const MA_7_ROLLING_7_STD_UPPER: &'static str = "ma_7_rolling_7_std_upper";

/// Name of the `ma_21_rolling_21_std_lower` column.
pub const MA_21_ROLLING_21_STD_LOWER: &'static str = "ma_21_rolling_21_std_lower";

/// Name of the `ma_21_rolling_21_std_upper` column.
pub const MA_21_ROLLING_21_STD_UPPER: &'static str = "ma_21_rolling_21_std_upper";

/// Name of the `ma_7_rolling_7_std_lower_atr_rel` column.
pub const MA_7_ROLLING_7_STD_LOWER_ATR_REL: &'static str = "ma_7_rolling_7_std_lower_atr_rel";

/// Name of the `ma_7_rolling_7_std_upper_atr_rel` column.
pub const MA_7_ROLLING_7_STD_UPPER_ATR_REL: &'static str = "ma_7_rolling_7_std_upper_atr_rel";

/// Name of the `ma_21_rolling_21_std_lower_atr_rel` column.
pub const MA_21_ROLLING_21_STD_LOWER_ATR_REL: &'static str = "ma_21_rolling_21_std_lower_atr_rel";

/// Name of the `ma_21_rolling_21_std_upper_atr_rel` column.
pub const MA_21_ROLLING_21_STD_UPPER_ATR_REL: &'static str = "ma_21_rolling_21_std_upper_atr_rel";

/// Name of the `ma_diff_21_7` column.
pub const MA_DIFF_21_7: &'static str = "ma_diff_21_7";

/// Name of the `ma_diff_21_7_atr_rel` column.
pub const MA_DIFF_21_7_ATR_REL: &'static str = "ma_diff_21_7_atr_rel";

/// Name of the `ma_diff_21_7_rolling_7_std` column.
pub const MA_DIFF_21_7_ROLLING_7_STD: &'static str = "ma_diff_21_7_rolling_7_std";

/// Name of the `ma_diff_21_7_rolling_7_std_atr_rel` column.
pub const MA_DIFF_21_7_ROLLING_7_STD_ATR_REL: &'static str = "ma_diff_21_7_rolling_7_std_atr_rel";

/// Name of the `ma_diff_21_7_lag_1` column.
pub const MA_DIFF_21_7_LAG_1: &'static str = "ma_diff_21_7_lag_1";

/// Name of the `ma_diff_21_7_lag_2` column.
pub const MA_DIFF_21_7_LAG_2: &'static str = "ma_diff_21_7_lag_2";

/// Name of the `ma_diff_21_7_lag_4` column.
pub const MA_DIFF_21_7_LAG_4: &'static str = "ma_diff_21_7_lag_4";

/// Name of the `ma_diff_21_7_lag_8` column.
pub const MA_DIFF_21_7_LAG_8: &'static str = "ma_diff_21_7_lag_8";

/// Name of the `ma_diff_21_7_lag_16` column.
pub const MA_DIFF_21_7_LAG_16: &'static str = "ma_diff_21_7_lag_16";

/// A momentum system: flags a close that is the highest of the last five.
pub struct TradingSystemExample;

impl TradingSystemExample {
    pub const TRADING_SYSTEM_NAME: &'static str = "trading_system_example";
    pub const MINIMUM_ROWS: u8 = 5;
    pub const ENTRY_CONDITION_COL: &'static str = "5_period_highest_close";
    pub const N_PERIOD_HIGH: usize = 5;
    pub const N_PERIOD_HIGH_COL: &'static str = "5_period_high_close";

    /// The columns of this system's frames: the raw price columns, then the
    /// rolling five-period high of the close and whether the close equals it.
    pub fn schema_fields() -> (r: Vec<FieldSpec>)
        ensures
            field_names(r@) == price_field_names() + seq![
                Self::N_PERIOD_HIGH_COL@,
                Self::ENTRY_CONDITION_COL@,
            ],
            field_types(r@) == price_field_types() + seq![
                ColumnType::Float64,
                ColumnType::Boolean,
            ],
    {
        let mut fields = price_fields();
        let ghost raw = fields@;
        fields.push(FieldSpec { name: Self::N_PERIOD_HIGH_COL.to_owned(), dtype: ColumnType::Float64 });
        fields.push(FieldSpec { name: Self::ENTRY_CONDITION_COL.to_owned(), dtype: ColumnType::Boolean });
        assert(field_names(fields@) =~= field_names(raw) + seq![
            Self::N_PERIOD_HIGH_COL@,
            Self::ENTRY_CONDITION_COL@,
        ]);
        assert(field_types(fields@) =~= field_types(raw) + seq![
            ColumnType::Float64,
            ColumnType::Boolean,
        ]);
        fields
    }
}

/// A machine-learning system: lagged closes as features and the sign of
/// the next period's change as target.
pub struct MLTradingSystemExample;

impl MLTradingSystemExample {
    pub const TRADING_SYSTEM_NAME: &'static str = "ml_trading_system_example";
    pub const MINIMUM_ROWS: u8 = 5;
    pub const ENTRY_CONDITION_COL: &'static str = "target";
    pub const TARGET_PERIOD: i32 = 1;
    pub const FEATURES: [&'static str; 3] = [LAG_1, LAG_2, LAG_5];
}

/// A meta-labeling system: entry and exit labels over a large feature set.
pub struct MetaLabelingExample;

impl MetaLabelingExample {
    pub const TRADING_SYSTEM_NAME: &'static str = "meta_labeling_example";
    pub const MINIMUM_ROWS: u8 = 126 + 16;
    pub const ENTRY_CONDITION_COL: &'static str = "entry_label";
    pub const MA_CROSSOVER: &'static str = "ma_crossover";
    pub const MA_CROSSOVER_SHIFTED: &'static str = "ma_crossover_shifted";
    pub const EXIT_LABEL: &'static str = "exit_label";
    pub const TARGET_PERIOD: i32 = 40;
    pub const ROLLING_MAX_PRICE: &'static str = "rolling_max_price";
    pub const ROLLING_MIN_PRICE: &'static str = "rolling_min_price";
    pub const MAX_PCT_CHANGE: &'static str = "max_pct_change";
    pub const MIN_PCT_CHANGE: &'static str = "min_pct_change";
    pub const FEATURES: [&'static str; 67] = [
        ADR,
        LAG_1,
        LAG_2,
        LAG_4,
        LAG_8,
        LAG_16,
        LAG_8_ROLLING_7_STD,
        LAG_8_ROLLING_21_STD,
        LAG_16_ROLLING_7_STD,
        LAG_16_ROLLING_21_STD,
        PCT_RANK_63,
        PCT_RANK_126,
        RSI_7,
        RSI_9,
        RSI_13,
        LAG_8_ROLLING_7_STD_ADR_DIV,
        LAG_8_ROLLING_21_STD_ADR_DIV,
        LAG_16_ROLLING_7_STD_ADR_DIV,
        LAG_16_ROLLING_21_STD_ADR_DIV,
        PCT_RANK_DIFF,
        PCT_RANK_63_LAG_1,
        PCT_RANK_63_LAG_2,
        PCT_RANK_63_LAG_4,
        PCT_RANK_63_LAG_8,
        PCT_RANK_63_LAG_16,
        PCT_RANK_126_LAG_1,
        PCT_RANK_126_LAG_2,
        PCT_RANK_126_LAG_4,
        PCT_RANK_126_LAG_8,
        PCT_RANK_126_LAG_16,
        RSI_DIFF_13_7,
        RSI_DIFF_13_9,
        RSI_DIFF_9_7,
        RSI_7_MA_7,
        RSI_7_MA_21,
        RSI_9_MA_7,
        RSI_9_MA_21,
        RSI_MA_7_DIFF,
        RSI_MA_21_DIFF,
        RSI_7_LAG_1,
        RSI_7_LAG_2,
        RSI_7_LAG_4,
        RSI_7_LAG_8,
        RSI_7_LAG_16,
        RSI_9_LAG_1,
        RSI_9_LAG_2,
        RSI_9_LAG_4,
        RSI_9_LAG_8,
        RSI_9_LAG_16,
        RSI_13_LAG_1,
        RSI_13_LAG_2,
        RSI_13_LAG_4,
        RSI_13_LAG_8,
        RSI_13_LAG_16,
        MA_7_ROLLING_7_STD_LOWER_ATR_REL,
        MA_7_ROLLING_7_STD_UPPER_ATR_REL,
        MA_21_ROLLING_21_STD_LOWER_ATR_REL,
        MA_21_ROLLING_21_STD_UPPER_ATR_REL,
        MA_DIFF_21_7,
        MA_DIFF_21_7_ATR_REL,
        MA_DIFF_21_7_ROLLING_7_STD,
        MA_DIFF_21_7_ROLLING_7_STD_ATR_REL,
        MA_DIFF_21_7_LAG_1,
        MA_DIFF_21_7_LAG_2,
        MA_DIFF_21_7_LAG_4,
        MA_DIFF_21_7_LAG_8,
        MA_DIFF_21_7_LAG_16,
    ];
}

} // verus!
